use ayysee::strmap::StrMap;

#[test]
fn an_empty_map_has_no_key() {
    let map: StrMap<i32> = StrMap::new();
    assert!(!map.contains_key("a"));
    assert_eq!(map.get("a"), None);
    assert_eq!(map.get(""), None);
}

#[test]
fn a_key_is_bound_to_what_was_inserted_last() {
    let mut map: StrMap<i32> = StrMap::new();
    map.insert("a".to_string(), 1);
    map.insert("b".to_string(), 2);
    assert_eq!(map.get("a"), Some(&1));
    assert_eq!(map.get("b"), Some(&2));
    map.insert("a".to_string(), 3);
    assert_eq!(map.get("a"), Some(&3));
    assert_eq!(map.get("b"), Some(&2));
    assert!(map.contains_key("a"));
    assert!(!map.contains_key("c"));
}

#[test]
fn a_removed_key_is_gone() {
    let mut map: StrMap<i32> = StrMap::new();
    map.insert("a".to_string(), 1);
    map.insert("b".to_string(), 2);
    map.insert("a".to_string(), 3);
    map.remove("a");
    assert_eq!(map.get("a"), None);
    assert_eq!(map.get("b"), Some(&2));
    map.remove("a");
    map.remove("missing");
    assert_eq!(map.get("b"), Some(&2));
    map.remove("b");
    assert!(!map.contains_key("b"));
    map.insert("a".to_string(), 9);
    assert_eq!(map.get("a"), Some(&9));
}

#[test]
fn keys_are_told_apart_by_every_character() {
    let mut map: StrMap<&'static str> = StrMap::new();
    map.insert("if_1".to_string(), "one");
    map.insert("if_10".to_string(), "ten");
    map.insert("".to_string(), "empty");
    assert_eq!(map.get("if_1"), Some(&"one"));
    assert_eq!(map.get("if_10"), Some(&"ten"));
    assert_eq!(map.get(""), Some(&"empty"));
    assert_eq!(map.get("if_"), None);
}
