use lucky::strmap::StrMap;

fn key(text: &str) -> String {
    text.to_string()
}

#[test]
fn map_starts_empty() {
    let map: StrMap<u32> = StrMap::new();
    assert_eq!(map.len(), 0);
    assert_eq!(map.get(&key("a")), None);
    assert!(!map.contains_key(&key("a")));
    assert_eq!(map.find(&key("a")), None);
}

#[test]
fn insert_then_get() {
    let mut map: StrMap<u32> = StrMap::new();
    map.insert(key("a"), 1);
    map.insert(key("b"), 2);
    assert_eq!(map.len(), 2);
    assert_eq!(map.get(&key("a")), Some(&1));
    assert_eq!(map.get(&key("b")), Some(&2));
    assert!(map.contains_key(&key("b")));
    assert_eq!(map.find(&key("b")), Some(1));
}

#[test]
fn insert_of_a_key_that_is_there_keeps_its_place() {
    let mut map: StrMap<u32> = StrMap::new();
    map.insert(key("a"), 1);
    map.insert(key("b"), 2);
    map.insert(key("a"), 3);
    assert_eq!(map.len(), 2);
    assert_eq!(map.key_at(0), "a");
    assert_eq!(*map.value_at(0), 3);
    assert_eq!(map.key_at(1), "b");
}

#[test]
fn remove_takes_the_entry_out() {
    let mut map: StrMap<u32> = StrMap::new();
    map.insert(key("a"), 1);
    map.insert(key("b"), 2);
    map.insert(key("c"), 3);
    assert_eq!(map.remove(&key("b")), Some(2));
    assert_eq!(map.remove(&key("b")), None);
    assert_eq!(map.len(), 2);
    assert_eq!(map.key_at(0), "a");
    assert_eq!(map.key_at(1), "c");
    assert_eq!(map.remove_at(0), 1);
    assert_eq!(map.key_at(0), "c");
}

#[test]
fn get_mut_changes_the_value_where_it_stands() {
    let mut map: StrMap<u32> = StrMap::new();
    map.insert(key("a"), 1);
    map.insert(key("b"), 2);
    *map.get_mut(&key("a")).unwrap() = 10;
    *map.value_at_mut(1) += 5;
    assert!(map.get_mut(&key("zz")).is_none());
    assert_eq!(map.get(&key("a")), Some(&10));
    assert_eq!(map.get(&key("b")), Some(&7));
    assert_eq!(map.key_at(0), "a");
}

#[test]
fn clear_empties_the_map() {
    let mut map: StrMap<u32> = StrMap::new();
    map.insert(key("a"), 1);
    map.clear();
    assert_eq!(map.len(), 0);
    assert_eq!(map.get(&key("a")), None);
}
