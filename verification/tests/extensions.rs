use std::collections::HashMap;

use killer_master_data::extensions::Extensions;

#[test]
fn set_get_contains_remove() {
    let mut e = Extensions::new();
    assert!(!e.contains_key("color"));
    assert_eq!(e.get("color"), None);
    e.set("color".to_string(), serde_json::Value::String("red".to_string()));
    assert!(e.contains_key("color"));
    assert_eq!(e.get("color"), Some(&serde_json::Value::String("red".to_string())));
    e.set("color".to_string(), serde_json::Value::Bool(true));
    assert_eq!(e.get("color"), Some(&serde_json::Value::Bool(true)));
    assert_eq!(e.inner().len(), 1);
    assert_eq!(e.remove("color"), Some(serde_json::Value::Bool(true)));
    assert!(!e.contains_key("color"));
    assert_eq!(e.remove("color"), None);
}

#[test]
fn from_map() {
    let mut map = HashMap::new();
    map.insert("weight".to_string(), serde_json::Value::from(12));
    let e = Extensions::from(map.clone());
    assert_eq!(e.inner(), &map);
    assert!(e.contains_key("weight"));
    assert_eq!(Extensions::default(), Extensions::new());
}

#[test]
fn setting_one_key_leaves_the_others() {
    let mut e = Extensions::new();
    e.set("size".to_string(), serde_json::Value::from(3));
    e.set("grade".to_string(), serde_json::Value::from("A"));
    assert_eq!(e.get("size"), Some(&serde_json::Value::from(3)));
    assert_eq!(e.get("grade"), Some(&serde_json::Value::from("A")));
    let before = e.clone();
    e.set("batch".to_string(), serde_json::Value::Null);
    assert_eq!(e.remove("batch"), Some(serde_json::Value::Null));
    assert_eq!(e, before);
}
