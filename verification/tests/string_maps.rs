use clicksign::string_map::StringMap;

#[test]
fn a_new_map_is_empty() {
    let map = StringMap::new();
    assert_eq!(map.len(), 0);
    assert_eq!(map.get("a"), None);
    assert!(!map.contains_key("a"));
    assert!(map.entry(0).is_none());
}

#[test]
fn insert_then_get() {
    let mut map = StringMap::new();
    map.insert("Company Name".to_string(), "Clicksign".to_string());
    map.insert("Phone".to_string(), "(11) 3145-2570".to_string());
    assert_eq!(map.len(), 2);
    assert_eq!(map.get("Company Name"), Some(&"Clicksign".to_string()));
    assert_eq!(map.get("Phone"), Some(&"(11) 3145-2570".to_string()));
    assert_eq!(map.get("phone"), None);
    assert!(map.contains_key("Phone"));
}

#[test]
fn insert_under_a_name_that_is_there_replaces_the_value() {
    let mut map = StringMap::new();
    map.insert("a".to_string(), "1".to_string());
    map.insert("b".to_string(), "2".to_string());
    map.insert("a".to_string(), "3".to_string());
    assert_eq!(map.len(), 2);
    assert_eq!(map.get("a"), Some(&"3".to_string()));
    assert_eq!(map.get("b"), Some(&"2".to_string()));
    assert_eq!(map.entry(0), Some((&"a".to_string(), &"3".to_string())));
    assert_eq!(map.entry(1), Some((&"b".to_string(), &"2".to_string())));
    assert_eq!(map.entry(2), None);
}

#[test]
fn the_empty_name_and_the_empty_value_are_like_any_other() {
    let mut map = StringMap::new();
    map.insert(String::new(), String::new());
    assert_eq!(map.get(""), Some(&String::new()));
    assert_eq!(map.len(), 1);
}

#[test]
fn a_copy_has_the_same_entries() {
    let mut map = StringMap::new();
    map.insert("a".to_string(), "1".to_string());
    map.insert("b".to_string(), "2".to_string());
    let mut copy = map.clone();
    assert_eq!(copy.len(), 2);
    assert_eq!(copy.get("a"), Some(&"1".to_string()));
    assert_eq!(copy.get("b"), Some(&"2".to_string()));
    copy.insert("a".to_string(), "9".to_string());
    assert_eq!(map.get("a"), Some(&"1".to_string()));
}
