use ncl::assoc::{get_entry, insert_entry, position_of, remove_entry, take_entry};

fn table() -> Vec<(String, u32)> {
    vec![("a".to_string(), 1), ("b".to_string(), 2)]
}

#[test]
fn lookup_insert_remove() {
    let mut t = table();
    assert_eq!(get_entry(&t, "b"), Some(&2));
    assert_eq!(get_entry(&t, "z"), None);
    assert_eq!(position_of(&t, "b"), Some(1));
    insert_entry(&mut t, "a".to_string(), 10);
    assert_eq!(t, vec![("a".to_string(), 10), ("b".to_string(), 2)]);
    insert_entry(&mut t, "c".to_string(), 3);
    assert_eq!(get_entry(&t, "c"), Some(&3));
    assert_eq!(take_entry(&mut t, "b"), Some(2));
    assert_eq!(get_entry(&t, "b"), None);
    remove_entry(&mut t, "a");
    assert_eq!(t, vec![("c".to_string(), 3)]);
    remove_entry(&mut t, "missing");
    assert_eq!(t.len(), 1);
}

#[test]
fn unique_keys_are_detected() {
    assert!(ncl::assoc::keys_unique(&table()));
    assert!(ncl::assoc::keys_unique(&Vec::<(String, u32)>::new()));
    let mut t = table();
    t.push(("a".to_string(), 3));
    assert!(!ncl::assoc::keys_unique(&t));
}
