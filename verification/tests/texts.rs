use codex_sdk::path::cwd_to_string;
use codex_sdk::text_map::TextMap;
use std::path::PathBuf;

#[test]
fn maps_remember_insertion_order_and_replace_values() {
    let mut map: TextMap<u64> = TextMap::new();
    assert_eq!(map.insert("b".to_string(), 1), None);
    assert_eq!(map.insert("a".to_string(), 2), None);
    assert_eq!(map.insert("b".to_string(), 3), Some(1));
    assert_eq!(map.len(), 2);
    assert_eq!(map.key_at(0), "b");
    assert_eq!(map.get("b"), Some(&3));
    assert_eq!(map.remove("b"), Some(3));
    assert_eq!(map.remove("b"), None);
    assert!(!map.contains_key("b"));
    assert_eq!(*map.value_at(0), 2);
}

#[test]
fn directories_become_text() {
    assert_eq!(cwd_to_string(&PathBuf::from("/work/src")), "/work/src");
}
