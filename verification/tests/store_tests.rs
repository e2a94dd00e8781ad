use claw10::store::{InMemoryStore, Store, StoreError};

fn json_bytes(text: &str) -> Vec<u8> {
    text.as_bytes().to_vec()
}

#[test]
fn test_in_memory_store_roundtrip() {
    let mut store = InMemoryStore::new();
    store.set_raw("test:key", serde_json::to_vec(&42u32).unwrap()).ok().unwrap();
    let bytes = store.get_raw("test:key").ok().unwrap().unwrap();
    let val: Option<u32> = Some(serde_json::from_slice(&bytes).unwrap());
    assert_eq!(val, Some(42));
}

#[test]
fn test_in_memory_store_not_found() {
    let store = InMemoryStore::new();
    let val = store.get_raw("nonexistent").ok().unwrap();
    assert!(val.is_none());
}

#[test]
fn test_in_memory_store_delete() {
    let mut store = InMemoryStore::new();
    store.set_raw("test:key", json_bytes("42")).ok().unwrap();
    store.delete("test:key").ok().unwrap();
    assert!(store.get_raw("test:key").ok().unwrap().is_none());
}

#[test]
fn test_in_memory_store_exists() {
    let mut store = InMemoryStore::new();
    store.set_raw("test:key", json_bytes("42")).ok().unwrap();
    assert!(store.key_exists("test:key").ok().unwrap());
    assert!(!store.key_exists("nonexistent").ok().unwrap());
}

#[test]
fn test_in_memory_store_scan_prefix() {
    let mut store = InMemoryStore::new();
    store.set_raw("agent:a1", json_bytes("\"agent-one\"")).ok().unwrap();
    store.set_raw("agent:a2", json_bytes("\"agent-two\"")).ok().unwrap();
    store.set_raw("task:t1", json_bytes("\"task-one\"")).ok().unwrap();
    let raw = store.scan_prefix_raw("agent:").ok().unwrap();
    let results: Vec<(String, String)> =
        raw.into_iter().map(|(k, v)| (k, serde_json::from_slice::<String>(&v).unwrap())).collect();
    assert_eq!(results.len(), 2);
    assert_eq!(results[0].1, "agent-one");
    assert_eq!(results[1].1, "agent-two");
}

#[test]
fn test_in_memory_store_clear() {
    let mut store = InMemoryStore::new();
    store.set_raw("test:key", json_bytes("42")).ok().unwrap();
    store.clear().ok().unwrap();
    assert!(store.get_raw("test:key").ok().unwrap().is_none());
}

#[test]
fn keys_come_back_in_order() {
    let mut store = InMemoryStore::new();
    for k in ["b", "a:2", "a:10", "a:1", "c"] {
        store.set_raw(k, json_bytes(k)).ok().unwrap();
    }
    assert_eq!(store.list_keys("a:").ok().unwrap(), vec!["a:1", "a:10", "a:2"]);
    assert_eq!(store.list_keys("").ok().unwrap(), vec!["a:1", "a:10", "a:2", "b", "c"]);
}

#[test]
fn overwrite_replaces_value() {
    let mut store = InMemoryStore::new();
    store.set_raw("k", vec![1]).ok().unwrap();
    store.set_raw("k", vec![2, 3]).ok().unwrap();
    assert_eq!(store.get_raw("k").ok().unwrap(), Some(vec![2, 3]));
    assert_eq!(store.list_keys("").ok().unwrap().len(), 1);
    store.delete("missing").ok().unwrap();
    assert_eq!(store.get_raw("k").ok().unwrap(), Some(vec![2, 3]));
}

#[test]
fn store_error_messages() {
    assert_eq!(StoreError::Serialization("x".into()).to_string(), "Serialization error: x");
    assert_eq!(StoreError::Database("x".into()).to_string(), "Database error: x");
    assert_eq!(StoreError::NotFound("x".into()).to_string(), "Not found: x");
}
