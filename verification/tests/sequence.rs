use lucky::hooks::{BuiltinHandler, ScriptRun};
use lucky::sequence::{next_action, Progress, RunAction, RunEvent, Stage, Verdict};
use lucky::strmap::StrMap;

fn scripts(async_flags: &[bool]) -> Vec<ScriptRun> {
    async_flags
        .iter()
        .enumerate()
        .map(|(i, is_async)| ScriptRun {
            script_id: format!("hook_{}", i),
            script: format!("s{}", i),
            command: format!("/c/host_scripts/s{}", i),
            environment: StrMap::new(),
            is_async: *is_async,
            apply_updates_after: false,
        })
        .collect()
}

/// Goes through the work with scripts that end as `fails` says, and lists
/// the actions.
fn trace(handler: BuiltinHandler, async_flags: &[bool], fails: &[usize]) -> Vec<RunAction> {
    let scripts = scripts(async_flags);
    let mut actions = Vec::new();
    let mut spawned = Vec::new();
    let mut progress = Progress::new();
    let mut event = RunEvent::Begin;
    loop {
        let (next, action) = next_action(handler, &scripts, progress, event);
        progress = next;
        actions.push(action);
        event = match action {
            RunAction::Handle(_) => RunEvent::Handled,
            RunAction::Run(i) if fails.contains(&i) => RunEvent::Failed,
            RunAction::Run(_) => RunEvent::Succeeded,
            RunAction::Spawn(i) => {
                spawned.push(i);
                RunEvent::Spawned
            }
            RunAction::Join => RunEvent::Joined {
                first_failed: spawned.iter().copied().find(|i| fails.contains(i)),
            },
            RunAction::Done(_) => return actions,
        };
    }
}

#[test]
fn scripts_are_set_off_in_order_and_waited_for_in_the_end() {
    assert_eq!(
        trace(BuiltinHandler::Nothing, &[false, true, false, true], &[]),
        vec![
            RunAction::Run(0),
            RunAction::Spawn(1),
            RunAction::Run(2),
            RunAction::Spawn(3),
            RunAction::Join,
            RunAction::Done(Verdict::Success)
        ]
    );
}

#[test]
fn the_handler_runs_before_the_scripts() {
    assert_eq!(
        trace(BuiltinHandler::Install, &[false], &[]),
        vec![
            RunAction::Handle(BuiltinHandler::Install),
            RunAction::Run(0),
            RunAction::Join,
            RunAction::Done(Verdict::Success)
        ]
    );
    assert_eq!(
        trace(BuiltinHandler::Stop, &[], &[]),
        vec![
            RunAction::Handle(BuiltinHandler::Stop),
            RunAction::Join,
            RunAction::Done(Verdict::Success)
        ]
    );
    assert_eq!(
        trace(BuiltinHandler::Nothing, &[], &[]),
        vec![RunAction::Join, RunAction::Done(Verdict::Success)]
    );
}

#[test]
fn a_failed_handler_ends_the_work_at_once() {
    let scripts = scripts(&[false, true]);
    let (progress, action) =
        next_action(BuiltinHandler::Stop, &scripts, Progress::new(), RunEvent::Begin);
    assert_eq!(action, RunAction::Handle(BuiltinHandler::Stop));
    assert_eq!(progress.stage, Stage::Handling);
    let (progress, action) = next_action(BuiltinHandler::Stop, &scripts, progress, RunEvent::Failed);
    assert_eq!(action, RunAction::Done(Verdict::HandlerFailed));
    assert_eq!(progress.stage, Stage::Over);
}

#[test]
fn a_failure_that_was_waited_for_stops_the_setting_off() {
    assert_eq!(
        trace(BuiltinHandler::Nothing, &[true, false, true, false], &[1]),
        vec![
            RunAction::Spawn(0),
            RunAction::Run(1),
            RunAction::Join,
            RunAction::Done(Verdict::ScriptFailed(1))
        ]
    );
}

#[test]
fn a_failure_beside_the_others_is_reported_after_the_waiting() {
    assert_eq!(
        trace(BuiltinHandler::Nothing, &[true, true, false, true], &[1, 3]),
        vec![
            RunAction::Spawn(0),
            RunAction::Spawn(1),
            RunAction::Run(2),
            RunAction::Spawn(3),
            RunAction::Join,
            RunAction::Done(Verdict::ScriptFailed(1))
        ]
    );
}

#[test]
fn the_failure_that_was_waited_for_comes_first() {
    assert_eq!(
        trace(BuiltinHandler::Nothing, &[true, false], &[0, 1]),
        vec![
            RunAction::Spawn(0),
            RunAction::Run(1),
            RunAction::Join,
            RunAction::Done(Verdict::ScriptFailed(1))
        ]
    );
}

#[test]
fn work_that_is_over_stays_over() {
    let scripts = scripts(&[]);
    let over = Progress { stage: Stage::Over, next: 0, failed: Some(4) };
    let (progress, action) = next_action(BuiltinHandler::Nothing, &scripts, over, RunEvent::Begin);
    assert_eq!(progress, over);
    assert_eq!(action, RunAction::Done(Verdict::ScriptFailed(4)));
}
