use vstd::prelude::*;
use std::collections::HashMap;
use vstd::string::StringExecFns;
use crate::decimal::{decimal, decimal_string};

verus! {

broadcast use vstd::std_specs::hash::group_hash_axioms;

/// A stored record. Once stored it is never updated.
#[derive(Debug)]
pub struct Item {
    pub title: String,
    pub score: u16,
    pub content: String,
}

impl PartialEq for Item {
    fn eq(&self, o: &Item) -> (r: bool)
        ensures
            r == (self.title@ == o.title@ && self.score == o.score && self.content@ == o.content@),
    {
        self.title == o.title && self.score == o.score && self.content == o.content
    }
}

impl vstd::std_specs::cmp::PartialEqSpecImpl for Item {
    open spec fn obeys_eq_spec() -> bool {
        true
    }

    open spec fn eq_spec(&self, o: &Item) -> bool {
        self.title@ == o.title@ && self.score == o.score && self.content@ == o.content@
    }
}

/// How an item's content is meant to be read: inline, or as a reference to
/// content stored elsewhere. No operation of the registry reads it.
#[derive(Clone, Copy, Debug, PartialEq, Eq, Structural)]
pub enum Content {
    Raw,
    IPFS,
}

/// Why an operation of the registry refused to act. Each one leaves the
/// registry as it was.
#[derive(Clone, Copy, Debug, PartialEq, Eq, Structural)]
pub enum RegistryError {
    AlreadyInitialized,
    DuplicateIdentifier,
    NotFound,
    NotAuthorized,
}

/// The registry: every stored item under its identifier.
pub struct Contract {
    pub item: HashMap<u128, Item>,
}

impl View for Contract {
    type V = Map<u128, Item>;

    open spec fn view(&self) -> Map<u128, Item> {
        self.item@
    }
}

/// The item stored under `id`, if any.
pub open spec fn lookup(m: Map<u128, Item>, id: u128) -> Option<Item> {
    if m.contains_key(id) {
        Some(m[id])
    } else {
        None
    }
}

/// Whether inserting under `id` is refused.
pub open spec fn create_result(m: Map<u128, Item>, id: u128) -> Result<(), RegistryError> {
    if m.contains_key(id) {
        Err(RegistryError::DuplicateIdentifier)
    } else {
        Ok(())
    }
}

/// The registry after inserting `it` under `id`: unchanged where `id` is taken.
pub open spec fn after_create(m: Map<u128, Item>, id: u128, it: Item) -> Map<u128, Item> {
    if m.contains_key(id) {
        m
    } else {
        m.insert(id, it)
    }
}

/// Whether removing `id` is refused.
pub open spec fn revoke_result(m: Map<u128, Item>, id: u128) -> Result<(), RegistryError> {
    if m.contains_key(id) {
        Ok(())
    } else {
        Err(RegistryError::NotFound)
    }
}

/// The registry after removing `id`: unchanged where `id` is absent.
pub open spec fn after_revoke(m: Map<u128, Item>, id: u128) -> Map<u128, Item> {
    m.remove(id)
}

/// Whether clearing is refused: only the owner may clear.
pub open spec fn reset_result(caller: Seq<char>, owner: Seq<char>) -> Result<(), RegistryError> {
    if caller == owner {
        Ok(())
    } else {
        Err(RegistryError::NotAuthorized)
    }
}

/// The registry after `caller` asks to clear it.
pub open spec fn after_reset(m: Map<u128, Item>, caller: Seq<char>, owner: Seq<char>) -> Map<
    u128,
    Item,
> {
    if caller == owner {
        Map::empty()
    } else {
        m
    }
}

/// The diagnostic text reported for `id`: the item's three fields, or a
/// note that nothing is stored under it.
pub open spec fn info_message(m: Map<u128, Item>, id: u128) -> Seq<char> {
    match lookup(m, id) {
        Some(it) => "\ntitle: "@ + it.title@ + "\n score: "@ + decimal(it.score as nat)
            + "\n content: "@ + it.content@,
        None => "Item not found"@,
    }
}

impl Contract {
    /// Creates the empty registry, unless the store already holds state.
    pub fn new(state_exists: bool) -> (r: Result<Contract, RegistryError>)
        ensures
            state_exists <==> r is Err,
            r is Err ==> r->Err_0 == RegistryError::AlreadyInitialized,
            r is Ok ==> r->Ok_0@ == Map::<u128, Item>::empty(),
    {
        if state_exists {
            Err(RegistryError::AlreadyInitialized)
        } else {
            Ok(Contract { item: HashMap::new() })
        }
    }

    /// Describes the item stored under `id` in readable text; never fails.
    pub fn get_item_info(&self, id: u128) -> (r: String)
        ensures
            r@ == info_message(self@, id),
    {
        match self.item.get(&id) {
            Some(it) => {
                let mut s = String::from_str("\ntitle: ");
                s.append(it.title.as_str());
                s.append("\n score: ");
                let digits = decimal_string(it.score);
                s.append(digits.as_str());
                s.append("\n content: ");
                s.append(it.content.as_str());
                s
            },
            None => String::from_str("Item not found"),
        }
    }

    /// Returns a copy of the item stored under `id`, if any.
    pub fn get_item(&self, id: u128) -> (r: Option<Item>)
        ensures
            r == lookup(self@, id),
    {
        match self.item.get(&id) {
            Some(it) => Some(
                Item { title: it.title.clone(), score: it.score, content: it.content.clone() },
            ),
            None => None,
        }
    }

    /// Stores a new item under `id`; refuses an identifier already in use.
    pub fn create_item(&mut self, id: u128, title: String, score: u16, content: String) -> (r:
        Result<(), RegistryError>)
        ensures
            r == create_result(old(self)@, id),
            final(self)@ == after_create(
                old(self)@,
                id,
                Item { title: title, score: score, content: content },
            ),
    {
        if self.item.contains_key(&id) {
            return Err(RegistryError::DuplicateIdentifier);
        }
        let it = Item { title: title, score: score, content: content };
        self.item.insert(id, it);
        Ok(())
    }

    /// Removes the item stored under `id`; refuses an absent identifier.
    pub fn revoke_item(&mut self, id: u128) -> (r: Result<(), RegistryError>)
        ensures
            r == revoke_result(old(self)@, id),
            final(self)@ == after_revoke(old(self)@, id),
    {
        if !self.item.contains_key(&id) {
            return Err(RegistryError::NotFound);
        }
        self.item.remove(&id);
        Ok(())
    }

    /// Removes every item, when `caller` is `owner`; otherwise refuses and
    /// keeps them all.
    pub fn reset_all(&mut self, caller: &String, owner: &String) -> (r: Result<(), RegistryError>)
        ensures
            r == reset_result(caller@, owner@),
            final(self)@ == after_reset(old(self)@, caller@, owner@),
    {
        if !caller.eq(owner) {
            return Err(RegistryError::NotAuthorized);
        }
        self.item.clear();
        Ok(())
    }
}

} // verus!
