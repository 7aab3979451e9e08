use bundlrs::cache::CacheStore;

#[test]
fn store_then_load_gives_the_value_back() {
    let mut c: CacheStore<u32> = CacheStore::new();
    assert_eq!(c.load("a"), None);
    assert_eq!(c.store("a".to_string(), 1), None);
    assert_eq!(c.load("a"), Some(&1));
    assert_eq!(c.store("a".to_string(), 2), Some(1));
    assert_eq!(c.load("a"), Some(&2));
}

#[test]
fn store_keeps_other_keys() {
    let mut c: CacheStore<&str> = CacheStore::new();
    c.store("a".to_string(), "x");
    c.store("b".to_string(), "y");
    c.store("a".to_string(), "z");
    assert_eq!(c.load("b"), Some(&"y"));
    assert_eq!(c.load("a"), Some(&"z"));
}

#[test]
fn clear_drops_only_its_key() {
    let mut c: CacheStore<u8> = CacheStore::new();
    c.store("a".to_string(), 1);
    c.store("b".to_string(), 2);
    c.clear("a");
    assert_eq!(c.load("a"), None);
    assert_eq!(c.load("b"), Some(&2));
    c.clear("missing");
    assert_eq!(c.load("b"), Some(&2));
}

#[test]
fn clear_undoes_a_store_of_a_new_key() {
    let mut c: CacheStore<u8> = CacheStore::new();
    c.store("a".to_string(), 1);
    c.store("new".to_string(), 9);
    c.clear("new");
    assert_eq!(c.load("new"), None);
    assert_eq!(c.load("a"), Some(&1));
}
