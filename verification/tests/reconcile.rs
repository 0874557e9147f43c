use lucky::container::Cd;
use lucky::container::ContainerInfo;
use lucky::reconcile::{
    apply_container_updates, apply_updates, remove_container, Action, Cursor, Event, Paths,
    Purpose, Step,
};
use lucky::state::DaemonState;
use lucky::status::ScriptState;

fn paths() -> Paths {
    Paths {
        charm_dir: "/charm".to_string(),
        data_dir: "/data".to_string(),
        socket_path: "/run/lucky.sock".to_string(),
    }
}

/// Does what the actions say on an engine that only takes notes, until the
/// work is done or the engine has been called `fail_after` times.
fn drive(state: &mut DaemonState, purpose: Purpose, fail_after: usize) -> Vec<String> {
    let mut calls: Vec<String> = Vec::new();
    let mut created = 0;
    let mut cursor = Cursor::Start;
    let mut event = Event::Begin;
    loop {
        let (next, action) = apply_container_updates(state, purpose, cursor, event, &paths());
        cursor = next;
        if !matches!(action, Action::Done | Action::Publish(_)) && calls.len() == fail_after {
            return calls;
        }
        event = match action {
            Action::Done => return calls,
            Action::Publish(_) => Event::Published,
            Action::Stop { id, timeout_secs } => {
                calls.push(format!("stop {} {}", id, timeout_secs));
                Event::Stopped
            }
            Action::Delete { id } => {
                calls.push(format!("delete {}", id));
                Event::Deleted
            }
            Action::Pull { image } => {
                calls.push(format!("pull {}", image));
                Event::Pulled
            }
            Action::Create { options } => {
                calls.push(format!("create {} ports={}", options.image, options.ports.len()));
                created += 1;
                Event::Created(format!("new{}", created))
            }
            Action::Start { id } => {
                calls.push(format!("start {}", id));
                Event::Started(id)
            }
        };
    }
}

fn running(image: &str, id: &str) -> Cd<ContainerInfo> {
    let mut info = ContainerInfo::new(image.to_string());
    info.id = Some(id.to_string());
    Cd::new_clean(info)
}

#[test]
fn first_apply_pulls_creates_and_starts() {
    let mut state = DaemonState::new();
    state.container_image_set("nginx:1.25".to_string(), None, false);
    state.container_port_add(8080, 80, "tcp".to_string(), &None).unwrap();
    let calls = drive(&mut state, Purpose::Apply, usize::MAX);
    assert_eq!(calls, vec!["pull nginx:1.25", "create nginx:1.25 ports=1", "start new1"]);
    let container = state.default_container.as_ref().unwrap();
    assert!(container.is_clean());
    assert_eq!(container.get().id.as_deref(), Some("new1"));
    assert_eq!(container.get().config.image, "nginx:1.25");
    assert_eq!(container.get().config.ports.len(), 1);
}

#[test]
fn changed_image_replaces_the_running_container() {
    let mut state = DaemonState::new();
    state.default_container = Some(running("nginx:1.25", "abc"));
    state.container_image_set("nginx:1.26".to_string(), None, false);
    let calls = drive(&mut state, Purpose::Apply, usize::MAX);
    assert_eq!(
        calls,
        vec![
            "stop abc 10",
            "delete abc",
            "pull nginx:1.26",
            "create nginx:1.26 ports=0",
            "start new1"
        ]
    );
    let container = state.default_container.as_ref().unwrap();
    assert!(container.is_clean());
    assert_eq!(container.get().id.as_deref(), Some("new1"));
}

#[test]
fn an_image_that_is_not_to_be_pulled_is_not_pulled() {
    let mut state = DaemonState::new();
    state.default_container = Some(running("local:1", "abc"));
    state.container_image_set("local:2".to_string(), None, true);
    state.container_image_set("remote".to_string(), Some("x".to_string()), false);
    let calls = drive(&mut state, Purpose::Apply, usize::MAX);
    assert_eq!(
        calls,
        vec![
            "pull remote",
            "create remote ports=0",
            "start new1",
            "stop abc 10",
            "delete abc",
            "create local:2 ports=0",
            "start new2"
        ]
    );
    assert!(state.default_container.as_ref().unwrap().is_clean());
}

#[test]
fn applying_twice_does_nothing_the_second_time() {
    let mut state = DaemonState::new();
    state.container_image_set("a".to_string(), None, false);
    state.container_image_set("b".to_string(), Some("x".to_string()), false);
    assert_eq!(drive(&mut state, Purpose::Apply, usize::MAX).len(), 6);
    assert!(drive(&mut state, Purpose::Apply, usize::MAX).is_empty());
    assert_eq!(state.default_container.as_ref().unwrap().get().id.as_deref(), Some("new2"));
    assert_eq!(
        state.named_containers.get(&"x".to_string()).unwrap().get().id.as_deref(),
        Some("new1")
    );
}

#[test]
fn unchanged_containers_are_left_alone() {
    let mut state = DaemonState::new();
    state.default_container = Some(running("a", "abc"));
    state.named_containers.insert("x".to_string(), running("b", "def"));
    assert!(drive(&mut state, Purpose::Apply, usize::MAX).is_empty());
    assert_eq!(state.default_container.as_ref().unwrap().get().id.as_deref(), Some("abc"));
    assert_eq!(state.named_containers.len(), 1);
}

#[test]
fn removal_stops_deletes_and_empties_the_slot() {
    let mut state = DaemonState::new();
    state.default_container = Some(running("a", "abc"));
    state.named_containers.insert("x".to_string(), running("b", "def"));
    state.named_containers.insert("y".to_string(), running("c", "ghi"));
    state.container_delete(&Some("x".to_string()));
    state.container_delete(&None);
    let calls = drive(&mut state, Purpose::Apply, usize::MAX);
    assert_eq!(calls, vec!["stop def 10", "delete def", "stop abc 10", "delete abc"]);
    assert!(state.default_container.is_none());
    assert_eq!(state.named_containers.len(), 1);
    assert!(state.named_containers.contains_key(&"y".to_string()));
}

#[test]
fn removal_of_a_container_that_never_ran_asks_nothing_of_the_engine() {
    let mut state = DaemonState::new();
    state.container_image_set("a".to_string(), Some("x".to_string()), false);
    state.container_delete(&Some("x".to_string()));
    assert!(drive(&mut state, Purpose::Apply, usize::MAX).is_empty());
    assert_eq!(state.named_containers.len(), 0);
}

#[test]
fn named_containers_come_before_the_default_in_their_order() {
    let mut state = DaemonState::new();
    state.container_image_set("d".to_string(), None, false);
    state.container_image_set("one".to_string(), Some("x".to_string()), false);
    state.container_image_set("two".to_string(), Some("y".to_string()), false);
    let calls = drive(&mut state, Purpose::Apply, usize::MAX);
    let pulls: Vec<&String> = calls.iter().filter(|c| c.starts_with("pull")).collect();
    assert_eq!(pulls, vec!["pull one", "pull two", "pull d"]);
}

#[test]
fn a_failure_leaves_what_was_recorded_up_to_there() {
    let mut state = DaemonState::new();
    state.default_container = Some(running("a", "abc"));
    state.container_image_set("b".to_string(), None, false);
    let calls = drive(&mut state, Purpose::Apply, 2);
    assert_eq!(calls, vec!["stop abc 10", "delete abc"]);
    let container = state.default_container.as_ref().unwrap();
    assert_eq!(container.get().id, None);
    assert!(!container.is_clean());
    let calls = drive(&mut state, Purpose::Apply, 1);
    assert_eq!(calls, vec!["pull b"]);
    assert_eq!(state.default_container.as_ref().unwrap().get().id, None);
}

#[test]
fn the_daemon_reports_its_own_status_while_it_applies() {
    let mut state = DaemonState::new();
    let id = "__lucky::daemon::tools::apply_container_updates".to_string();
    let (cursor, action) =
        apply_container_updates(&mut state, Purpose::Apply, Cursor::Start, Event::Begin, &paths());
    assert_eq!(cursor, Cursor::Named(0));
    match action {
        Action::Publish(status) => {
            assert_eq!(status.state, ScriptState::Maintenance);
            assert_eq!(status.message.as_deref(), Some("Applying Docker configuration updates"));
        }
        _ => panic!("the status was not published"),
    }
    assert_eq!(state.script_statuses.get(&id).unwrap().state, ScriptState::Maintenance);
    let (cursor, action) =
        apply_container_updates(&mut state, Purpose::Apply, cursor, Event::Published, &paths());
    assert_eq!(cursor, Cursor::Closing);
    match action {
        Action::Publish(status) => {
            assert_eq!(status.state, ScriptState::Active);
            assert_eq!(status.message, None);
        }
        _ => panic!("the status was not published"),
    }
    assert_eq!(state.script_statuses.get(&id).unwrap().state, ScriptState::Active);
    let (cursor, action) =
        apply_container_updates(&mut state, Purpose::Apply, cursor, Event::Published, &paths());
    assert_eq!(cursor, Cursor::Finished);
    assert!(matches!(action, Action::Done));
}

#[test]
fn stop_hook_removes_every_container() {
    let mut state = DaemonState::new();
    state.default_container = Some(running("a", "abc"));
    state.named_containers.insert("x".to_string(), running("b", "def"));
    state.named_containers.insert("y".to_string(), running("c", "ghi"));
    let calls = drive(&mut state, Purpose::RemoveAll, usize::MAX);
    assert_eq!(
        calls,
        vec![
            "stop def 10",
            "delete def",
            "stop ghi 10",
            "delete ghi",
            "stop abc 10",
            "delete abc"
        ]
    );
    assert!(state.default_container.is_none());
    assert_eq!(state.named_containers.len(), 0);
    let id = "__lucky::daemon::hook_handlers::handle_stop".to_string();
    assert_eq!(state.script_statuses.get(&id).unwrap().state, ScriptState::Active);
}

#[test]
fn stop_hook_that_fails_keeps_the_slots() {
    let mut state = DaemonState::new();
    state.named_containers.insert("x".to_string(), running("b", "def"));
    state.named_containers.insert("y".to_string(), running("c", "ghi"));
    let calls = drive(&mut state, Purpose::RemoveAll, 3);
    assert_eq!(calls.len(), 3);
    assert_eq!(state.named_containers.len(), 2);
    let first = state.named_containers.get(&"x".to_string()).unwrap();
    assert_eq!(first.get().id, None);
    assert!(first.is_clean());
    let second = state.named_containers.get(&"y".to_string()).unwrap();
    assert_eq!(second.get().id.as_deref(), Some("ghi"));
}

#[test]
fn create_options_carry_the_configuration_and_the_mounts() {
    let mut state = DaemonState::new();
    state.container_image_set("img".to_string(), None, false);
    state.container_set_entrypoint(Some("/e".to_string()), &None);
    state.container_set_command(Some(vec!["c".to_string()]), &None);
    state.container_network_set(Some("n".to_string()), &None);
    state.container_volume_add("db".to_string(), "/var/db".to_string(), &None);
    state.container_volume_add("/abs".to_string(), "/mnt".to_string(), &None);
    state.container_port_add(1, 2, "udp".to_string(), &None).unwrap();
    let config = &state.default_container.as_ref().unwrap().get().config;
    let options = config.to_container_options(&paths());
    assert_eq!(options.image, "img");
    assert_eq!(options.entrypoint.as_deref(), Some("/e"));
    assert_eq!(options.command, Some(vec!["c".to_string()]));
    assert_eq!(options.network.as_deref(), Some("n"));
    assert_eq!(options.ports.len(), 1);
    assert!(options.env_vars.is_empty());
    let mounts: Vec<(String, String, bool)> = options
        .mounts
        .iter()
        .map(|m| (m.source.clone(), m.target.clone(), m.read_only))
        .collect();
    assert_eq!(
        mounts,
        vec![
            ("/data/volumes/db".to_string(), "/var/db".to_string(), false),
            ("/abs".to_string(), "/mnt".to_string(), false),
            ("/charm".to_string(), "/charm".to_string(), true),
            ("/run/lucky.sock".to_string(), "/run/lucky.sock".to_string(), false),
        ]
    );
}

#[test]
fn steps_of_one_container() {
    let mut container = running("img", "abc");
    assert!(matches!(apply_updates(&mut container, Event::Begin, &paths()), Step::Keep));
    container.update().pending_removal = true;
    match apply_updates(&mut container, Event::Begin, &paths()) {
        Step::Act(Action::Stop { id, timeout_secs }) => {
            assert_eq!(id, "abc");
            assert_eq!(timeout_secs, 10);
        }
        _ => panic!("the container was not stopped"),
    }
    assert!(matches!(
        apply_updates(&mut container, Event::Stopped, &paths()),
        Step::Act(Action::Delete { .. })
    ));
    assert!(matches!(apply_updates(&mut container, Event::Deleted, &paths()), Step::Drop));
    assert_eq!(container.get().id, None);
    let mut other = running("img", "abc");
    assert!(matches!(
        remove_container(&mut other, Event::Begin),
        Step::Act(Action::Stop { .. })
    ));
    assert!(matches!(remove_container(&mut other, Event::Deleted), Step::Keep));
    assert_eq!(other.get().id, None);
    assert!(matches!(remove_container(&mut other, Event::Begin), Step::Keep));
}
