use dynasty_macros::registry::{Registry, RegistryError};

#[test]
fn register_records_a_new_type() {
    let mut reg = Registry::new();
    assert_eq!(reg.len(), 0);
    let i = reg.register(1, "Animal".to_owned(), None, 7).unwrap();
    assert_eq!(i, 0);
    assert_eq!(reg.len(), 1);
    let rec = reg.record_at(0).unwrap();
    assert_eq!(rec.id, 7);
    assert_eq!(rec.name, "Animal");
    assert_eq!(rec.parent, None);
    assert_eq!(rec.type_token, 1);
}

#[test]
fn register_is_a_singleton_per_type() {
    let mut reg = Registry::new();
    let first = reg.register(1, "Animal".to_owned(), None, 7).unwrap();
    // the second call, whatever it carries, returns the same record unchanged
    let second = reg.register(1, "Other".to_owned(), Some(9), 11).unwrap();
    assert_eq!(first, second);
    assert_eq!(reg.len(), 1);
    let rec = reg.record_at(first).unwrap();
    assert_eq!(rec.id, 7);
    assert_eq!(rec.name, "Animal");
    assert_eq!(rec.parent, None);
}

#[test]
fn class_info_twice_yields_the_same_identifier() {
    let mut reg = Registry::new();
    let first = reg.class_info(1, "Animal".to_owned(), None).unwrap();
    let id_first = reg.record_at(first).unwrap().id;
    let second = reg.class_info(1, "Animal".to_owned(), None).unwrap();
    let id_second = reg.record_at(second).unwrap().id;
    assert_eq!(first, second);
    assert_eq!(id_first, id_second);
    assert_eq!(reg.len(), 1);
}

#[test]
fn distinct_types_receive_distinct_identifiers() {
    let mut reg = Registry::new();
    let a = reg.class_info(1, "Animal".to_owned(), None).unwrap();
    let b = reg.class_info(2, "Dog".to_owned(), Some(1)).unwrap();
    let c = reg.class_info(3, "Cat".to_owned(), Some(1)).unwrap();
    let ids = [
        reg.record_at(a).unwrap().id,
        reg.record_at(b).unwrap().id,
        reg.record_at(c).unwrap().id,
    ];
    assert_ne!(ids[0], ids[1]);
    assert_ne!(ids[0], ids[2]);
    assert_ne!(ids[1], ids[2]);
    assert!(reg.check_well_formed());
}

#[test]
fn a_child_record_points_at_its_parent() {
    let mut reg = Registry::new();
    let parent = reg.class_info(1, "Animal".to_owned(), None).unwrap();
    let parent_token = reg.record_at(parent).unwrap().type_token;
    let child = reg.class_info(2, "Dog".to_owned(), Some(parent_token)).unwrap();
    assert_eq!(reg.record_at(child).unwrap().parent, Some(parent_token));
    assert_eq!(reg.record_at(parent).unwrap().parent, None);
}

#[test]
fn register_refuses_a_used_identifier() {
    let mut reg = Registry::new();
    reg.register(1, "Animal".to_owned(), None, 7).unwrap();
    let e = reg.register(2, "Dog".to_owned(), Some(1), 7);
    assert_eq!(e.unwrap_err(), RegistryError::IdCollision);
    assert_eq!(reg.len(), 1);
    // the same candidate is no obstacle for the type that holds it
    let again = reg.register(1, "Animal".to_owned(), None, 7).unwrap();
    assert_eq!(again, 0);
}

#[test]
fn lookup_finds_only_registered_tokens() {
    let mut reg = Registry::new();
    assert_eq!(reg.lookup(1), None);
    reg.register(1, "Animal".to_owned(), None, 7).unwrap();
    reg.register(2, "Dog".to_owned(), Some(1), 8).unwrap();
    assert_eq!(reg.lookup(1), Some(0));
    assert_eq!(reg.lookup(2), Some(1));
    assert_eq!(reg.lookup(3), None);
    assert!(reg.record_at(2).is_none());
}
