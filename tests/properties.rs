use openpanel_sdk::properties::merge_properties;
use openpanel_sdk::strmap::StringMap;
use openpanel_sdk::tracker::Tracker;
use std::collections::HashMap;

fn map_of(pairs: &[(&str, &str)]) -> StringMap {
    let mut m = StringMap::new();
    for (k, v) in pairs {
        m.insert(k.to_string(), v.to_string());
    }
    m
}

fn as_hash(m: &StringMap) -> HashMap<String, String> {
    m.to_pairs().into_iter().collect()
}

fn tracker() -> Tracker {
    Tracker::new(
        "https://api.example.com".to_string(),
        "id".to_string(),
        "secret".to_string(),
    )
}

#[test]
fn can_create_properties_with_globals() {
    let properties = map_of(&[("test", "test")]);
    let tracker = tracker().with_global_properties(map_of(&[("test", "test")]));
    let properties_with_globals = tracker.create_properties_with_globals(Some(properties));

    assert_eq!(as_hash(tracker.global_properties()), as_hash(&properties_with_globals));
}

#[test]
fn can_set_global_properties() {
    let properties = map_of(&[("test", "test")]);
    let tracker = tracker().with_global_properties(map_of(&[("test", "test")]));

    assert_eq!(as_hash(tracker.global_properties()), as_hash(&properties));
}

#[test]
fn global_property_overrides_local() {
    let local = map_of(&[("name", "local"), ("only", "local")]);
    let global = map_of(&[("name", "global")]);
    let m = merge_properties(Some(local), &global);

    assert_eq!(m.get("name").unwrap(), "global");
    assert_eq!(m.get("only").unwrap(), "local");
    assert_eq!(m.to_pairs().len(), 2);
}

#[test]
fn disjoint_properties_are_united() {
    let local = map_of(&[("local", "property")]);
    let global = map_of(&[("global", "property")]);
    let m = merge_properties(Some(local), &global);

    let expected = as_hash(&map_of(&[("local", "property"), ("global", "property")]));
    assert_eq!(as_hash(&m), expected);
}

#[test]
fn no_local_properties_gives_globals() {
    let global = map_of(&[("a", "1"), ("b", "2")]);
    let m = merge_properties(None, &global);
    assert_eq!(as_hash(&m), as_hash(&global));

    let m = merge_properties(None, &StringMap::new());
    assert!(m.to_pairs().is_empty());
}

#[test]
fn insert_replaces_value_of_same_key() {
    let mut m = map_of(&[("k", "1"), ("j", "2")]);
    m.insert("k".to_string(), "3".to_string());

    assert_eq!(m.get("k").unwrap(), "3");
    assert!(m.contains_key("j"));
    assert!(!m.contains_key("x"));
    assert_eq!(
        m.to_pairs(),
        vec![("k".to_string(), "3".to_string()), ("j".to_string(), "2".to_string())]
    );
}

#[test]
fn from_pairs_keeps_last_value() {
    let m = StringMap::from_pairs(vec![
        ("a".to_string(), "1".to_string()),
        ("b".to_string(), "2".to_string()),
        ("a".to_string(), "3".to_string()),
    ]);

    assert_eq!(m.get("a").unwrap(), "3");
    assert_eq!(m.to_pairs().len(), 2);
}
