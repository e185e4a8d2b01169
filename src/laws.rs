use vstd::prelude::*;
use crate::registry::{
    after_create, after_reset, after_revoke, create_result, lookup, reset_result, revoke_result, Item,
    RegistryError,
};

verus! {

/// Once an item has been stored under `id`, a second insert under `id`, with
/// any fields, is refused as a duplicate and the first item stays.
pub proof fn lemma_create_is_insert_only(m: Map<u128, Item>, id: u128, a: Item, b: Item)
    requires
        create_result(m, id) is Ok,
    ensures
        create_result(after_create(m, id, a), id) == Err::<(), RegistryError>(
            RegistryError::DuplicateIdentifier,
        ),
        after_create(after_create(m, id, a), id, b) == after_create(m, id, a),
        lookup(after_create(after_create(m, id, a), id, b), id) == Some(a),
{
}

/// What an insert stores is what a lookup then returns, field for field.
pub proof fn lemma_create_then_get(m: Map<u128, Item>, id: u128, a: Item)
    requires
        create_result(m, id) is Ok,
    ensures
        lookup(after_create(m, id, a), id) == Some(a),
{
}

/// Removing a stored item succeeds; afterwards a lookup finds nothing and a
/// second removal is refused as not found.
pub proof fn lemma_revoke_after_create(m: Map<u128, Item>, id: u128, a: Item)
    requires
        create_result(m, id) is Ok,
    ensures
        revoke_result(after_create(m, id, a), id) is Ok,
        lookup(after_revoke(after_create(m, id, a), id), id) is None,
        revoke_result(after_revoke(after_create(m, id, a), id), id) == Err::<(), RegistryError>(
            RegistryError::NotFound,
        ),
{
}

/// Removing an identifier that holds no item is refused as not found and
/// changes nothing.
pub proof fn lemma_revoke_absent(m: Map<u128, Item>, id: u128)
    requires
        !m.contains_key(id),
    ensures
        revoke_result(m, id) == Err::<(), RegistryError>(RegistryError::NotFound),
        after_revoke(m, id) == m,
{
    assert(m.remove(id) =~= m);
}

/// Only the owner may clear: anyone else is refused and every item stays;
/// the owner empties the registry, whatever it held.
pub proof fn lemma_reset_owner_only(m: Map<u128, Item>, caller: Seq<char>, owner: Seq<char>)
    ensures
        caller != owner ==> reset_result(caller, owner) == Err::<(), RegistryError>(
            RegistryError::NotAuthorized,
        ) && after_reset(m, caller, owner) == m,
        caller == owner ==> reset_result(caller, owner) is Ok && after_reset(m, caller, owner)
            == Map::<u128, Item>::empty(),
{
}

} // verus!
