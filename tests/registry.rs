use item_registry::decimal::decimal_string;
use item_registry::{Content, Contract, Item, RegistryError};

fn item(title: &str, score: u16, content: &str) -> Item {
    Item { title: title.to_string(), score, content: content.to_string() }
}

#[test]
fn create() {
    let mut contract = Contract::new(false).unwrap();
    let id_1: u128 = 1001;
    let item_1 = Item {
        title: "Who am I".to_string(),
        score: 5,
        content: "link file cv".to_string(),
    };
    contract.create_item(id_1, "Who am I".to_string(), 5, "link file cv".to_string()).unwrap();
    assert_eq!(contract.get_item(id_1).unwrap(), item_1);
}

#[test]
fn revoke() {
    let mut contract = Contract::new(false).unwrap();
    let id: u128 = 1001;
    contract.create_item(id, "Who am I".to_string(), 5, "link file cv".to_string()).unwrap();
    contract.revoke_item(id).unwrap();
    assert_eq!(contract.get_item(id), None);
}

#[test]
fn second_initialize_is_refused() {
    assert!(Contract::new(false).is_ok());
    assert_eq!(Contract::new(true).err(), Some(RegistryError::AlreadyInitialized));
}

#[test]
fn create_revoke_round_trip() {
    let mut c = Contract::new(false).unwrap();
    assert_eq!(c.create_item(1001, "Who am I".to_string(), 5, "link file cv".to_string()), Ok(()));
    assert_eq!(c.get_item(1001), Some(item("Who am I", 5, "link file cv")));
    assert_eq!(c.revoke_item(1001), Ok(()));
    assert_eq!(c.get_item(1001), None);
    assert_eq!(c.revoke_item(1001), Err(RegistryError::NotFound));
}

#[test]
fn duplicate_identifier_keeps_first_item() {
    let mut c = Contract::new(false).unwrap();
    assert_eq!(c.create_item(7, "A".to_string(), 1, "x".to_string()), Ok(()));
    assert_eq!(
        c.create_item(7, "B".to_string(), 2, "y".to_string()),
        Err(RegistryError::DuplicateIdentifier)
    );
    assert_eq!(c.get_item(7), Some(item("A", 1, "x")));
}

#[test]
fn revoke_of_absent_changes_nothing() {
    let mut c = Contract::new(false).unwrap();
    c.create_item(1, "t".to_string(), 3, "c".to_string()).unwrap();
    assert_eq!(c.revoke_item(2), Err(RegistryError::NotFound));
    assert_eq!(c.get_item(1), Some(item("t", 3, "c")));
    assert_eq!(c.item.len(), 1);
}

#[test]
fn reset_all_only_by_owner() {
    let mut c = Contract::new(false).unwrap();
    for id in 1u128..=5 {
        c.create_item(id, format!("item {}", id), id as u16, "c".to_string()).unwrap();
    }
    let owner = "owner".to_string();
    let other = "someone.else".to_string();
    assert_eq!(c.reset_all(&other, &owner), Err(RegistryError::NotAuthorized));
    for id in 1u128..=5 {
        assert!(c.get_item(id).is_some());
    }
    assert_eq!(c.reset_all(&owner, &owner), Ok(()));
    for id in 1u128..=5 {
        assert_eq!(c.get_item(id), None);
    }
    assert_eq!(c.item.len(), 0);
}

#[test]
fn reset_all_on_empty_registry() {
    let mut c = Contract::new(false).unwrap();
    let owner = "owner".to_string();
    assert_eq!(c.reset_all(&owner, &owner), Ok(()));
    assert_eq!(c.item.len(), 0);
}

#[test]
fn largest_identifier_and_score() {
    let mut c = Contract::new(false).unwrap();
    c.create_item(u128::MAX, String::new(), u16::MAX, String::new()).unwrap();
    assert_eq!(c.get_item(u128::MAX), Some(item("", 65535, "")));
    assert_eq!(c.get_item(0), None);
}

#[test]
fn item_info_lists_fields() {
    let mut c = Contract::new(false).unwrap();
    c.create_item(1001, "Who am I".to_string(), 5, "link file cv".to_string()).unwrap();
    assert_eq!(c.get_item_info(1001), "\ntitle: Who am I\n score: 5\n content: link file cv");
    c.create_item(9, "T".to_string(), 1234, "C".to_string()).unwrap();
    assert_eq!(c.get_item_info(9), "\ntitle: T\n score: 1234\n content: C");
}

#[test]
fn item_info_of_absent() {
    let c = Contract::new(false).unwrap();
    assert_eq!(c.get_item_info(42), "Item not found");
}

#[test]
fn decimal_of_edges() {
    assert_eq!(decimal_string(0), "0");
    assert_eq!(decimal_string(10), "10");
    assert_eq!(decimal_string(65535), "65535");
}

#[test]
fn item_equality_is_structural() {
    assert_eq!(item("a", 1, "b"), item("a", 1, "b"));
    assert_ne!(item("a", 1, "b"), item("a", 2, "b"));
    assert_ne!(item("a", 1, "b"), item("a", 1, "c"));
    assert_ne!(Content::Raw, Content::IPFS);
}
