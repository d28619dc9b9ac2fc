use rusty_smith::string_map::StringMap;

#[test]
fn a_new_map_is_empty() {
    let map = StringMap::new();
    assert_eq!(map.len(), 0);
    assert_eq!(map.get("HOST"), None);
    assert!(!map.contains_key("HOST"));
}

#[test]
fn insert_enters_a_value_and_get_finds_it() {
    let mut map = StringMap::new();
    assert_eq!(map.insert("HOST".to_string(), "https://example.com".to_string()), None);
    assert_eq!(map.get("HOST"), Some(&"https://example.com".to_string()));
    assert!(map.contains_key("HOST"));
    assert_eq!(map.get("host"), None);
    assert_eq!(map.len(), 1);
}

#[test]
fn insert_replaces_the_value_of_a_key_and_hands_back_the_old_one() {
    let mut map = StringMap::new();
    map.insert("a".to_string(), "1".to_string());
    map.insert("b".to_string(), "2".to_string());
    assert_eq!(map.insert("a".to_string(), "3".to_string()), Some("1".to_string()));
    assert_eq!(map.get("a"), Some(&"3".to_string()));
    assert_eq!(map.get("b"), Some(&"2".to_string()));
    assert_eq!(map.len(), 2);
}

#[test]
fn from_entries_lets_a_later_pair_replace_an_earlier_one() {
    let map = StringMap::from_entries(vec![
        ("title".to_string(), "First".to_string()),
        ("date".to_string(), "2024-01-01".to_string()),
        ("title".to_string(), "Second".to_string()),
    ]);
    assert_eq!(map.len(), 2);
    assert_eq!(map.get("title"), Some(&"Second".to_string()));
    assert_eq!(map.get("date"), Some(&"2024-01-01".to_string()));
}
