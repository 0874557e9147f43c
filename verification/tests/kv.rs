use lucky::container::Cd;
use lucky::state::DaemonState;
use lucky::strmap::StrMap;

fn changes(pairs: &[(&str, Option<&str>)]) -> StrMap<Option<String>> {
    let mut map = StrMap::new();
    for (key, value) in pairs {
        map.insert(key.to_string(), value.map(|v| v.to_string()));
    }
    map
}

#[test]
fn kv_set_stores_and_deletes() {
    let mut state = DaemonState::new();
    state.kv.insert("c".to_string(), Cd::new("old".to_string()));
    state.unit_kv_set(&changes(&[("a", Some("1")), ("b", Some("2")), ("c", None)]));
    let mut all = state.unit_kv_get_all();
    all.sort();
    assert_eq!(
        all,
        vec![("a".to_string(), "1".to_string()), ("b".to_string(), "2".to_string())]
    );
    assert_eq!(state.unit_kv_get(&"c".to_string()), None);
}

#[test]
fn kv_get_reads_what_was_set() {
    let mut state = DaemonState::new();
    assert_eq!(state.unit_kv_get(&"a".to_string()), None);
    state.unit_kv_set(&changes(&[("a", Some("1"))]));
    assert_eq!(state.unit_kv_get(&"a".to_string()), Some("1".to_string()));
    state.unit_kv_set(&changes(&[("a", Some("2"))]));
    assert_eq!(state.unit_kv_get(&"a".to_string()), Some("2".to_string()));
    assert_eq!(state.unit_kv_get_all().len(), 1);
}

#[test]
fn kv_delete_of_a_missing_key_changes_nothing() {
    let mut state = DaemonState::new();
    state.unit_kv_set(&changes(&[("a", Some("1"))]));
    state.unit_kv_set(&changes(&[("zzz", None)]));
    assert_eq!(state.unit_kv_get_all(), vec![("a".to_string(), "1".to_string())]);
}

#[test]
fn kv_set_without_changes_changes_nothing() {
    let mut state = DaemonState::new();
    state.unit_kv_set(&changes(&[("a", Some("1"))]));
    state.unit_kv_set(&changes(&[]));
    assert_eq!(state.unit_kv_get_all(), vec![("a".to_string(), "1".to_string())]);
}

#[test]
fn kv_new_values_count_as_changed() {
    let mut state = DaemonState::new();
    state.unit_kv_set(&changes(&[("a", Some("1"))]));
    assert!(!state.kv.get(&"a".to_string()).unwrap().is_clean());
}

#[test]
fn kv_keeps_the_order_of_arrival() {
    let mut state = DaemonState::new();
    state.unit_kv_set(&changes(&[("b", Some("1")), ("a", Some("2"))]));
    state.unit_kv_set(&changes(&[("b", Some("3"))]));
    assert_eq!(
        state.unit_kv_get_all(),
        vec![("b".to_string(), "3".to_string()), ("a".to_string(), "2".to_string())]
    );
}

#[test]
fn get_config_lists_the_cached_configuration_as_json_text() {
    let mut state = DaemonState::new();
    assert!(state.get_config().is_empty());
    state.charm_config.insert("port".to_string(), Cd::new_clean("8080".to_string()));
    state.charm_config.insert("name".to_string(), Cd::new_clean("\"web\"".to_string()));
    assert_eq!(
        state.get_config(),
        vec![
            ("port".to_string(), "8080".to_string()),
            ("name".to_string(), "\"web\"".to_string())
        ]
    );
}

#[test]
fn dirty_flag_is_set_by_update_and_cleared_by_clean() {
    let mut value = Cd::new_clean(1u8);
    assert!(value.is_clean());
    assert_eq!(*value.get(), 1);
    assert!(value.is_clean());
    *value.update() = 2;
    assert!(!value.is_clean());
    assert_eq!(*value.get(), 2);
    value.clean();
    assert!(value.is_clean());
    *value.untracked() = 3;
    assert!(value.is_clean());
    assert_eq!(value.into_inner(), 3);
    assert!(!Cd::new(0u8).is_clean());
}
