use discount_platform::identity::{same_identity, Identity};
use discount_platform::store::{PairKey, Store, StoreKey};

fn id(n: u8) -> Identity {
    Identity::new([n; 32])
}

#[test]
fn identities_are_compared_by_their_bytes() {
    let mut bytes = [7u8; 32];
    let a = Identity::new(bytes);
    assert_eq!(a, id(7));
    assert!(same_identity(&a, &id(7)));
    assert_eq!(a.to_bytes(), bytes);
    bytes[31] = 8;
    let b = Identity::new(bytes);
    assert_ne!(a, b);
    assert!(!same_identity(&a, &b));
    bytes[31] = 7;
    bytes[0] = 0;
    assert_ne!(a, Identity::new(bytes));
}

#[test]
fn the_sentinel_is_all_zero() {
    assert_eq!(Identity::default().to_bytes(), [0u8; 32]);
    assert!(Identity::default().is_default());
    assert!(id(0).is_default());
    assert!(!id(1).is_default());
    let mut bytes = [0u8; 32];
    bytes[17] = 1;
    assert!(!Identity::new(bytes).is_default());
}

#[test]
fn keys_of_every_kind_are_compared_by_value() {
    assert!(id(1).same_key(&id(1)));
    assert!(!id(1).same_key(&id(2)));
    assert!(5u64.same_key(&5));
    assert!(!5u64.same_key(&6));
    assert!("abc".to_string().same_key(&"abc".to_string()));
    assert!(!"abc".to_string().same_key(&"abd".to_string()));
    let key = PairKey { user: id(1), promotion: id(2) };
    assert!(key.same_key(&PairKey { user: id(1), promotion: id(2) }));
    assert!(!key.same_key(&PairKey { user: id(2), promotion: id(1) }));
    assert!(!key.same_key(&PairKey { user: id(1), promotion: id(3) }));
}

#[test]
fn a_store_keeps_each_record_under_its_key() {
    let mut store: Store<Identity, u32> = Store::new();
    assert_eq!(store.len(), 0);
    assert_eq!(store.get(&id(1)), None);
    assert_eq!(store.find(&id(1)), None);
    assert!(!store.contains(&id(1)));
    store.insert(id(1), 10);
    store.insert(id(2), 20);
    store.insert(id(3), 30);
    assert_eq!(store.len(), 3);
    assert!(store.contains(&id(2)));
    assert_eq!(store.get(&id(1)), Some(&10));
    assert_eq!(store.get(&id(2)), Some(&20));
    assert_eq!(store.get(&id(3)), Some(&30));
    assert_eq!(store.get(&id(4)), None);
    assert_eq!(store.find(&id(3)), Some(2));

    store.replace(1, 21);
    assert_eq!(store.get(&id(2)), Some(&21));
    assert_eq!(store.get(&id(1)), Some(&10));
    assert_eq!(store.len(), 3);

    let lent = store.lend(0, 0);
    assert_eq!(lent, 10);
    assert_eq!(store.get(&id(1)), Some(&0));
    store.replace(0, lent + 1);
    assert_eq!(store.get(&id(1)), Some(&11));
    assert_eq!(store.get(&id(3)), Some(&30));
}

#[test]
fn a_store_takes_text_and_numbers_as_keys() {
    let mut by_text: Store<String, u8> = Store::new();
    by_text.insert("a".to_string(), 1);
    by_text.insert("ab".to_string(), 2);
    assert_eq!(by_text.get(&"ab".to_string()), Some(&2));
    assert_eq!(by_text.get(&"b".to_string()), None);
    let mut by_number: Store<u64, u8> = Store::new();
    by_number.insert(u64::MAX, 1);
    by_number.insert(0, 2);
    assert_eq!(by_number.get(&0), Some(&2));
    assert_eq!(by_number.get(&u64::MAX), Some(&1));
    assert_eq!(by_number.get(&1), None);
}
