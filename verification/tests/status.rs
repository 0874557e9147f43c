use lucky::state::DaemonState;
use lucky::status::{ScriptState, ScriptStatus};

fn status(state: ScriptState, message: Option<&str>) -> ScriptStatus {
    ScriptStatus { state, message: message.map(|m| m.to_string()) }
}

#[test]
fn set_status_is_read_back() {
    let mut state = DaemonState::new();
    state.set_script_status("install_0".to_string(), status(ScriptState::Blocked, Some("no db")));
    let stored = state.script_statuses.get(&"install_0".to_string()).unwrap();
    assert_eq!(stored.state, ScriptState::Blocked);
    assert_eq!(stored.message.as_deref(), Some("no db"));
}

#[test]
fn set_status_replaces_the_earlier_status_of_the_script() {
    let mut state = DaemonState::new();
    state.set_script_status("a".to_string(), status(ScriptState::Waiting, Some("first")));
    state.set_script_status("a".to_string(), status(ScriptState::Active, None));
    assert_eq!(state.script_statuses.len(), 1);
    let stored = state.script_statuses.get(&"a".to_string()).unwrap();
    assert_eq!(stored.state, ScriptState::Active);
    assert_eq!(stored.message, None);
}

#[test]
fn unit_status_of_no_script_is_maintenance_without_message() {
    let state = DaemonState::new();
    let unit = state.get_juju_status();
    assert_eq!(unit.state, ScriptState::Maintenance);
    assert_eq!(unit.message, None);
}

#[test]
fn unit_state_is_the_highest_precedence() {
    let mut state = DaemonState::new();
    state.set_script_status("a".to_string(), status(ScriptState::Active, None));
    assert_eq!(state.get_juju_status().state, ScriptState::Active);
    state.set_script_status("b".to_string(), status(ScriptState::Maintenance, None));
    assert_eq!(state.get_juju_status().state, ScriptState::Active);
    state.set_script_status("c".to_string(), status(ScriptState::Blocked, None));
    assert_eq!(state.get_juju_status().state, ScriptState::Blocked);
    state.set_script_status("d".to_string(), status(ScriptState::Waiting, None));
    assert_eq!(state.get_juju_status().state, ScriptState::Waiting);
    state.set_script_status("e".to_string(), status(ScriptState::Active, None));
    assert_eq!(state.get_juju_status().state, ScriptState::Waiting);
}

#[test]
fn precedence_ascends_from_maintenance_to_waiting() {
    assert_eq!(ScriptState::Maintenance.precedence(), 0);
    assert_eq!(ScriptState::Active.precedence(), 1);
    assert_eq!(ScriptState::Blocked.precedence(), 2);
    assert_eq!(ScriptState::Waiting.precedence(), 3);
    assert_eq!(ScriptState::default(), ScriptState::Maintenance);
}

#[test]
fn unit_message_joins_the_messages_in_order() {
    let mut state = DaemonState::new();
    state.set_script_status("a".to_string(), status(ScriptState::Active, Some("one")));
    state.set_script_status("b".to_string(), status(ScriptState::Active, None));
    state.set_script_status("c".to_string(), status(ScriptState::Blocked, Some("two")));
    let unit = state.get_juju_status();
    assert_eq!(unit.message.as_deref(), Some("one, two"));
    assert_eq!(unit.state, ScriptState::Blocked);
}

#[test]
fn set_status_returns_the_unit_status() {
    let mut state = DaemonState::new();
    let unit = state.set_script_status("a".to_string(), status(ScriptState::Waiting, Some("w")));
    assert_eq!(unit.state, ScriptState::Waiting);
    assert_eq!(unit.message.as_deref(), Some("w"));
}
