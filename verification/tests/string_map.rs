use dockhand::string_map::StringMap;

fn pair(k: &str, v: &str) -> (String, String) {
    (k.to_string(), v.to_string())
}

#[test]
fn new_map_is_empty() {
    let map = StringMap::new();
    assert_eq!(map.len(), 0);
    assert!(map.is_empty());
    assert!(!map.contains_key("a"));
    assert_eq!(map.get("a"), None);
    assert!(map.entries().is_empty());
}

#[test]
fn insert_adds_at_the_end() {
    let mut map = StringMap::new();
    map.insert("80/tcp".to_string(), "8080".to_string());
    map.insert("443/tcp".to_string(), "8443".to_string());
    assert_eq!(map.len(), 2);
    assert!(!map.is_empty());
    assert_eq!(map.key_at(0), "80/tcp");
    assert_eq!(map.value_at(0), "8080");
    assert_eq!(map.key_at(1), "443/tcp");
    assert_eq!(map.value_at(1), "8443");
    assert_eq!(map.get("443/tcp"), Some(&"8443".to_string()));
    assert_eq!(map.get("443"), None);
    assert!(map.contains_key("80/tcp"));
    assert!(!map.contains_key("80/udp"));
}

#[test]
fn insert_replaces_in_place() {
    let mut map = StringMap::new();
    map.insert("a".to_string(), "1".to_string());
    map.insert("b".to_string(), "2".to_string());
    map.insert("a".to_string(), "3".to_string());
    assert_eq!(map.len(), 2);
    assert_eq!(map.entries(), vec![pair("a", "3"), pair("b", "2")]);
    assert_eq!(map.get("a"), Some(&"3".to_string()));
}

#[test]
fn keys_stay_distinct() {
    let mut map = StringMap::new();
    for (k, v) in [("x", "1"), ("y", "2"), ("x", "3"), ("z", "4"), ("y", "5"), ("x", "6")] {
        map.insert(k.to_string(), v.to_string());
    }
    let entries = map.entries();
    assert_eq!(entries, vec![pair("x", "6"), pair("y", "5"), pair("z", "4")]);
    for i in 0..entries.len() {
        for j in 0..i {
            assert_ne!(entries[i].0, entries[j].0);
        }
    }
}

#[test]
fn from_pairs_lets_the_later_pair_win() {
    let map = StringMap::from_pairs(&vec![pair("a", "1"), pair("b", "2"), pair("a", "9")]);
    assert_eq!(map.entries(), vec![pair("a", "9"), pair("b", "2")]);
    assert!(StringMap::from_pairs(&Vec::new()).is_empty());
}

#[test]
fn clone_keeps_pairs_and_order() {
    let map = StringMap::from_pairs(&vec![pair("b", "2"), pair("a", "1")]);
    let copy = map.clone();
    assert_eq!(copy.entries(), map.entries());
    assert_eq!(copy.entries(), vec![pair("b", "2"), pair("a", "1")]);
}

#[test]
fn empty_key_and_value_are_ordinary() {
    let mut map = StringMap::new();
    map.insert(String::new(), String::new());
    assert_eq!(map.len(), 1);
    assert_eq!(map.get(""), Some(&String::new()));
}
