use lucky::container::{resolve_volume_source, Cd, ContainerInfo};
use lucky::error::ValidationError;
use lucky::state::DaemonState;
use lucky::strmap::StrMap;

fn name(text: &str) -> Option<String> {
    Some(text.to_string())
}

fn with_default(image: &str) -> DaemonState {
    let mut state = DaemonState::new();
    state.container_image_set(image.to_string(), None, false);
    state
}

fn mark_applied(container: &mut Cd<ContainerInfo>) {
    container.clean();
}

fn vars(pairs: &[(&str, Option<&str>)]) -> StrMap<Option<String>> {
    let mut map = StrMap::new();
    for (key, value) in pairs {
        map.insert(key.to_string(), value.map(|v| v.to_string()));
    }
    map
}

#[test]
fn image_set_fills_the_default_slot() {
    let state = with_default("nginx:1.25");
    let container = state.default_container.as_ref().unwrap();
    assert!(!container.is_clean());
    let info = container.get();
    assert_eq!(info.config.image, "nginx:1.25");
    assert_eq!(info.id, None);
    assert!(info.pull_image);
    assert!(!info.pending_removal);
    assert_eq!(info.config.entrypoint, None);
    assert_eq!(info.config.command, None);
    assert_eq!(info.config.network, None);
    assert_eq!(info.config.env_vars.len(), 0);
    assert_eq!(info.config.volumes.len(), 0);
    assert_eq!(info.config.ports.len(), 0);
    assert_eq!(state.named_containers.len(), 0);
    assert_eq!(state.container_image_get(&None), Some("nginx:1.25".to_string()));
}

#[test]
fn image_set_fills_a_named_slot_and_leaves_the_default_alone() {
    let mut state = DaemonState::new();
    state.container_image_set("redis".to_string(), name("cache"), true);
    assert!(state.default_container.is_none());
    assert_eq!(state.container_image_get(&None), None);
    assert_eq!(state.container_image_get(&name("cache")), Some("redis".to_string()));
    assert_eq!(state.container_image_get(&name("other")), None);
    let info = state.named_containers.get(&"cache".to_string()).unwrap().get();
    assert!(!info.pull_image);
}

#[test]
fn image_set_on_a_container_that_is_there_keeps_the_rest() {
    let mut state = with_default("nginx:1.25");
    state.container_set_entrypoint(Some("/run".to_string()), &None);
    mark_applied(state.default_container.as_mut().unwrap());
    state.container_image_set("nginx:1.26".to_string(), None, true);
    let container = state.default_container.as_ref().unwrap();
    assert!(!container.is_clean());
    assert_eq!(container.get().config.image, "nginx:1.26");
    assert_eq!(container.get().config.entrypoint.as_deref(), Some("/run"));
    assert!(!container.get().pull_image);
}

#[test]
fn default_and_named_slots_are_apart() {
    let mut state = with_default("a");
    state.container_image_set("b".to_string(), name("x"), false);
    state.container_set_entrypoint(Some("/default".to_string()), &None);
    state.container_set_entrypoint(Some("/named".to_string()), &name("x"));
    state.container_delete(&name("x"));
    let default = state.default_container.as_ref().unwrap().get();
    let named = state.named_containers.get(&"x".to_string()).unwrap().get();
    assert_eq!(default.config.entrypoint.as_deref(), Some("/default"));
    assert!(!default.pending_removal);
    assert_eq!(named.config.entrypoint.as_deref(), Some("/named"));
    assert!(named.pending_removal);
    assert_eq!(state.named_containers.len(), 1);
}

#[test]
fn settings_of_an_empty_slot_do_nothing() {
    let mut state = DaemonState::new();
    state.container_set_entrypoint(Some("/run".to_string()), &None);
    state.container_set_command(Some(vec!["a".to_string()]), &name("x"));
    state.container_network_set(Some("net".to_string()), &None);
    state.container_delete(&None);
    state.container_env_set(&vars(&[("A", Some("1"))]), &None);
    state.container_volume_add("src".to_string(), "/t".to_string(), &None);
    state.container_port_remove_all(&name("x"));
    assert_eq!(state.container_port_add(80, 80, "tcp".to_string(), &None).is_ok(), true);
    assert_eq!(state.container_port_add(-1, 80, "tcp".to_string(), &None).is_ok(), true);
    assert!(state.default_container.is_none());
    assert_eq!(state.named_containers.len(), 0);
    assert_eq!(state.container_env_get(&"A".to_string(), &None), None);
    assert!(state.container_volume_get_all(&None).is_empty());
    assert!(state.container_port_get_all(&None).is_empty());
    assert_eq!(state.container_volume_remove(&"/t".to_string(), true, &None, "/d"), None);
}

#[test]
fn entrypoint_command_and_network_are_set_and_unset() {
    let mut state = with_default("img");
    mark_applied(state.default_container.as_mut().unwrap());
    state.container_set_command(Some(vec!["run".to_string(), "--fast".to_string()]), &None);
    assert!(!state.default_container.as_ref().unwrap().is_clean());
    state.container_set_entrypoint(Some("/bin/sh".to_string()), &None);
    state.container_network_set(Some("host".to_string()), &None);
    {
        let config = &state.default_container.as_ref().unwrap().get().config;
        assert_eq!(config.command, Some(vec!["run".to_string(), "--fast".to_string()]));
        assert_eq!(config.entrypoint.as_deref(), Some("/bin/sh"));
        assert_eq!(config.network.as_deref(), Some("host"));
    }
    state.container_set_command(None, &None);
    state.container_set_entrypoint(None, &None);
    state.container_network_set(None, &None);
    let config = &state.default_container.as_ref().unwrap().get().config;
    assert_eq!(config.command, None);
    assert_eq!(config.entrypoint, None);
    assert_eq!(config.network, None);
}

#[test]
fn delete_marks_the_container_for_removal() {
    let mut state = with_default("img");
    mark_applied(state.default_container.as_mut().unwrap());
    state.container_delete(&None);
    let container = state.default_container.as_ref().unwrap();
    assert!(container.get().pending_removal);
    assert!(!container.is_clean());
}

#[test]
fn env_set_sets_and_unsets_variables() {
    let mut state = with_default("img");
    state.container_env_set(&vars(&[("A", Some("1")), ("B", Some("2"))]), &None);
    state.container_env_set(&vars(&[("A", None), ("C", Some("3"))]), &None);
    assert_eq!(state.container_env_get(&"A".to_string(), &None), None);
    assert_eq!(state.container_env_get(&"B".to_string(), &None), Some("2".to_string()));
    assert_eq!(
        state.container_env_get_all(true, &None).unwrap(),
        vec![("B".to_string(), "2".to_string()), ("C".to_string(), "3".to_string())]
    );
}

#[test]
fn env_set_without_changes_leaves_the_container_clean() {
    let mut state = with_default("img");
    mark_applied(state.default_container.as_mut().unwrap());
    state.container_env_set(&vars(&[]), &None);
    assert!(state.default_container.as_ref().unwrap().is_clean());
    state.container_env_set(&vars(&[("A", None)]), &None);
    assert!(!state.default_container.as_ref().unwrap().is_clean());
}

#[test]
fn env_get_all_must_be_called_with_more() {
    let state = with_default("img");
    let refused = state.container_env_get_all(false, &None);
    assert!(matches!(refused, Err(ValidationError::RequiresMore)));
    assert_eq!(
        refused.unwrap_err().message(),
        "This call must be made with the more flag"
    );
    assert_eq!(state.container_env_get_all(true, &name("none")).unwrap(), vec![]);
}

#[test]
fn volume_add_and_get_all() {
    let mut state = with_default("img");
    mark_applied(state.default_container.as_mut().unwrap());
    state.container_volume_add("data".to_string(), "/var/data".to_string(), &None);
    state.container_volume_add("/host/logs".to_string(), "/logs".to_string(), &None);
    state.container_volume_add("other".to_string(), "/var/data".to_string(), &None);
    assert!(!state.default_container.as_ref().unwrap().is_clean());
    assert_eq!(
        state.container_volume_get_all(&None),
        vec![
            ("/var/data".to_string(), "other".to_string()),
            ("/logs".to_string(), "/host/logs".to_string())
        ]
    );
}

#[test]
fn volume_remove_deletes_data_only_when_asked_and_unshared() {
    let mut state = with_default("img");
    state.container_volume_add("shared".to_string(), "/a".to_string(), &None);
    state.container_volume_add("shared".to_string(), "/b".to_string(), &None);
    state.container_volume_add("/abs".to_string(), "/c".to_string(), &None);
    state.container_volume_add("own".to_string(), "/d".to_string(), &None);
    let dir = "/var/lib/lucky";
    assert_eq!(state.container_volume_remove(&"/a".to_string(), true, &None, dir), None);
    assert_eq!(
        state.container_volume_remove(&"/b".to_string(), true, &None, dir),
        Some("/var/lib/lucky/volumes/shared".to_string())
    );
    assert_eq!(
        state.container_volume_remove(&"/c".to_string(), true, &None, dir),
        Some("/abs".to_string())
    );
    assert_eq!(state.container_volume_remove(&"/d".to_string(), false, &None, dir), None);
    assert_eq!(state.container_volume_remove(&"/d".to_string(), true, &None, dir), None);
    assert!(state.container_volume_get_all(&None).is_empty());
}

#[test]
fn volume_remove_marks_the_container_even_without_the_volume() {
    let mut state = with_default("img");
    mark_applied(state.default_container.as_mut().unwrap());
    assert_eq!(state.container_volume_remove(&"/nope".to_string(), true, &None, "/d"), None);
    assert!(!state.default_container.as_ref().unwrap().is_clean());
}

#[test]
fn volume_sources_resolve_under_the_data_directory() {
    assert_eq!(resolve_volume_source("/var/lib/lucky", "db"), "/var/lib/lucky/volumes/db");
    assert_eq!(resolve_volume_source("/var/lib/lucky", "/srv/db"), "/srv/db");
    assert_eq!(resolve_volume_source("/d", ""), "/d/volumes/");
    assert_eq!(resolve_volume_source("", "a/b"), "/volumes/a/b");
}
