use accord::store::Store;

#[test]
fn empty_store_has_nothing() {
    let s = Store::new();
    assert_eq!(s.get(&b"foo".to_vec()), None);
    assert_eq!(s.len(), 0);
}

#[test]
fn insert_then_get() {
    let mut s = Store::new();
    s.insert(b"foo".to_vec(), b"bar".to_vec());
    assert_eq!(s.get(&b"foo".to_vec()), Some(b"bar".to_vec()));
    assert_eq!(s.get(&b"other".to_vec()), None);
    assert_eq!(s.len(), 1);
}

#[test]
fn insert_replaces_value() {
    let mut s = Store::new();
    s.insert(b"k".to_vec(), b"v1".to_vec());
    s.insert(b"k".to_vec(), b"v2".to_vec());
    assert_eq!(s.get(&b"k".to_vec()), Some(b"v2".to_vec()));
    assert_eq!(s.len(), 1);
}

#[test]
fn keys_are_independent() {
    let mut s = Store::new();
    s.insert(b"a".to_vec(), b"1".to_vec());
    s.insert(b"b".to_vec(), b"2".to_vec());
    assert_eq!(s.get(&b"a".to_vec()), Some(b"1".to_vec()));
    assert_eq!(s.get(&b"b".to_vec()), Some(b"2".to_vec()));
    assert_eq!(s.len(), 2);
}

#[test]
fn empty_key_and_value_are_values() {
    let mut s = Store::new();
    s.insert(Vec::new(), Vec::new());
    assert_eq!(s.get(&Vec::new()), Some(Vec::new()));
}
