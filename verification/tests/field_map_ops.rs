use rocketmq_remoting::field_map::FieldMap;

#[test]
fn insert_then_get_returns_the_value() {
    let mut m = FieldMap::new();
    m.insert("topic", "t".to_string());
    assert_eq!(m.get("topic"), Some("t".to_string()));
    assert!(m.contains_key("topic"));
    assert_eq!(m.get("queueId"), None);
    assert!(!m.contains_key("queueId"));
}

#[test]
fn later_insert_of_a_key_replaces_the_earlier_one() {
    let mut m = FieldMap::new();
    m.insert("k", "one".to_string());
    m.insert("k", "two".to_string());
    assert_eq!(m.get("k"), Some("two".to_string()));
}

#[test]
fn merge_prefers_the_other_map_on_shared_keys() {
    let mut a = FieldMap::new();
    a.insert("shared", "left".to_string());
    a.insert("onlyLeft", "l".to_string());
    let mut b = FieldMap::new();
    b.insert("shared", "right".to_string());
    b.insert("onlyRight", "r".to_string());
    a.merge(&b);
    assert_eq!(a.get("shared"), Some("right".to_string()));
    assert_eq!(a.get("onlyLeft"), Some("l".to_string()));
    assert_eq!(a.get("onlyRight"), Some("r".to_string()));
}

#[test]
fn empty_value_is_distinct_from_absent_key() {
    let mut m = FieldMap::new();
    m.insert("k", String::new());
    assert_eq!(m.get("k"), Some(String::new()));
    assert!(m.contains_key("k"));
    assert!(!m.contains_key("other"));
}
