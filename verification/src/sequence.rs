//! The order in which the runs of a hook, or of one cron job, are set off.
//!
//! First comes the handler that the daemon has built in, if there is one.
//! Then the scripts are gone through in their order: one that runs beside
//! the others is set off and the next one follows at once; any other is
//! waited for. When a script that was waited for has failed, no further
//! script is set off. In the end the scripts that still run are waited for,
//! and only then is the outcome given: the failure of the handler, else of
//! the script that was waited for, else of the first script that failed
//! beside the others.
//!
//! The runs themselves happen elsewhere: a function takes what has just
//! happened and answers with what is to be done next.

use crate::hooks::BuiltinHandler;
use vstd::prelude::*;

verus! {

/// The part of the work that is under way.
#[derive(Clone, Copy, Debug, PartialEq, Eq)]
pub enum Stage {
    /// Nothing has been done yet.
    Start,
    /// The built-in handler runs.
    Handling,
    /// Scripts are being set off.
    Launching,
    /// The scripts that run beside the others are waited for.
    Joining,
    /// The outcome has been given.
    Over,
}

/// Where the work stands.
#[derive(Clone, Copy, Debug, PartialEq, Eq)]
pub struct Progress {
    pub stage: Stage,
    /// The place of the script that is set off next.
    pub next: usize,
    /// The place of the script that was waited for and failed, if one did.
    pub failed: Option<usize>,
}

/// What has just happened.
#[derive(Clone, Copy, Debug, PartialEq, Eq)]
pub enum RunEvent {
    /// Nothing yet: the work begins.
    Begin,
    /// The handler has run.
    Handled,
    /// A script was set off to run beside the others.
    Spawned,
    /// The handler, or the script that was waited for, has failed.
    Failed,
    /// The script that was waited for has succeeded.
    Succeeded,
    /// Every script that ran beside the others has ended; `first_failed`
    /// is the place of the first of them that failed, in the order in which
    /// they were set off.
    Joined { first_failed: Option<usize> },
}

/// How the work has ended.
#[derive(Clone, Copy, Debug, PartialEq, Eq)]
pub enum Verdict {
    /// Nothing failed.
    Success,
    /// The built-in handler failed; no script was set off.
    HandlerFailed,
    /// The script at this place failed; its failure is the one to report.
    ScriptFailed(usize),
}

/// What is to be done next.
#[derive(Clone, Copy, Debug, PartialEq, Eq)]
pub enum RunAction {
    /// Run the built-in handler.
    Handle(BuiltinHandler),
    /// Run the script at this place and wait for it.
    Run(usize),
    /// Set the script at this place off to run beside the others.
    Spawn(usize),
    /// Wait for every script that runs beside the others.
    Join,
    /// Nothing: the work is over, with this outcome.
    Done(Verdict),
}

/// The progress of work that has not begun.
pub open spec fn not_begun() -> Progress {
    Progress { stage: Stage::Start, next: 0, failed: None }
}

/// How the work goes on with the scripts from place `next`, after the
/// failure `failed` if there is one: with the waiting where a script has
/// failed or none is left, else with the script at `next`.
pub open spec fn launch_from(async_flags: Seq<bool>, next: usize, failed: Option<usize>) -> (
    Progress,
    RunAction,
) {
    if failed is Some || next >= async_flags.len() || next == usize::MAX {
        (Progress { stage: Stage::Joining, next, failed }, RunAction::Join)
    } else {
        (
            Progress { stage: Stage::Launching, next: (next + 1) as usize, failed },
            if async_flags[next as int] {
                RunAction::Spawn(next)
            } else {
                RunAction::Run(next)
            },
        )
    }
}

/// The outcome that is given after the waiting.
pub open spec fn verdict_of(failed: Option<usize>, event: RunEvent) -> Verdict {
    match failed {
        Some(i) => Verdict::ScriptFailed(i),
        None => match event {
            RunEvent::Joined { first_failed: Some(i) } => Verdict::ScriptFailed(i),
            _ => Verdict::Success,
        },
    }
}

/// The place of the script that was last set off.
pub open spec fn last_launched(next: usize) -> usize {
    if next > 0 {
        (next - 1) as usize
    } else {
        0
    }
}

/// One step of the work: where it stands after `event`, and what is to be
/// done next. `async_flags` tells of each script whether it runs beside
/// the others.
pub open spec fn next_step(
    handler: BuiltinHandler,
    async_flags: Seq<bool>,
    progress: Progress,
    event: RunEvent,
) -> (Progress, RunAction) {
    match progress.stage {
        Stage::Start => match handler {
            BuiltinHandler::Nothing => launch_from(async_flags, 0, None),
            _ => (
                Progress { stage: Stage::Handling, next: 0, failed: None },
                RunAction::Handle(handler),
            ),
        },
        Stage::Handling => match event {
            RunEvent::Failed => (
                Progress { stage: Stage::Over, next: 0, failed: None },
                RunAction::Done(Verdict::HandlerFailed),
            ),
            _ => launch_from(async_flags, 0, None),
        },
        Stage::Launching => match event {
            RunEvent::Failed => launch_from(
                async_flags,
                progress.next,
                match progress.failed {
                    Some(i) => Some(i),
                    None => Some(last_launched(progress.next)),
                },
            ),
            _ => launch_from(async_flags, progress.next, progress.failed),
        },
        Stage::Joining => (
            Progress { stage: Stage::Over, ..progress },
            RunAction::Done(verdict_of(progress.failed, event)),
        ),
        Stage::Over => (progress, RunAction::Done(verdict_of(progress.failed, event))),
    }
}

/// The order of the work is kept at every step:
///
/// - a script is set off only at its turn, and the turn passes on with it,
///   so that the scripts are set off in their order and none of them twice;
/// - once a script that was waited for has failed, no script is set off;
/// - the outcome is given only after the waiting, or at once when the
///   handler has failed, when no script has been set off.
pub proof fn lemma_order_is_kept(
    handler: BuiltinHandler,
    async_flags: Seq<bool>,
    progress: Progress,
    event: RunEvent,
)
    ensures
        ({
            let (after, action) = next_step(handler, async_flags, progress, event);
            &&& match action {
                RunAction::Run(i) => {
                    &&& i < async_flags.len() && !async_flags[i as int]
                    &&& after.next == i + 1
                    &&& progress.stage is Launching ==> i == progress.next
                    &&& !(progress.stage is Launching) ==> i == 0
                },
                RunAction::Spawn(i) => {
                    &&& i < async_flags.len() && async_flags[i as int]
                    &&& after.next == i + 1
                    &&& progress.stage is Launching ==> i == progress.next
                    &&& !(progress.stage is Launching) ==> i == 0
                },
                RunAction::Handle(h) => h == handler && progress.stage is Start && !(h
                    is Nothing),
                RunAction::Join => after.stage is Joining,
                RunAction::Done(verdict) => {
                    &&& after.stage is Over
                    &&& progress.stage is Joining || progress.stage is Over || (
                    progress.stage is Handling && verdict is HandlerFailed)
                },
            }
            &&& (progress.stage is Launching && (progress.failed is Some || event is Failed))
                ==> action is Join
            &&& (progress.stage is Launching && progress.failed is Some) ==> after.failed
                == progress.failed
        }),
{
}

/// The place of the first script from `from` up to `to` that runs beside
/// the others and fails.
pub open spec fn first_failed_beside(
    async_flags: Seq<bool>,
    fails: spec_fn(int) -> bool,
    from: int,
    to: int,
) -> Option<usize>
    decreases to - from,
{
    if from >= to {
        None
    } else if async_flags[from] && fails(from) {
        Some(from as usize)
    } else {
        first_failed_beside(async_flags, fails, from + 1, to)
    }
}

/// What a caller that does as it is asked reports of an action, when the
/// scripts fail as `fails` says and the handler as `handler_fails` says.
/// `launched` is the number of scripts that have been set off.
pub open spec fn report_of(
    action: RunAction,
    async_flags: Seq<bool>,
    fails: spec_fn(int) -> bool,
    handler_fails: bool,
    launched: int,
) -> RunEvent {
    match action {
        RunAction::Handle(_) => if handler_fails {
            RunEvent::Failed
        } else {
            RunEvent::Handled
        },
        RunAction::Run(i) => if fails(i as int) {
            RunEvent::Failed
        } else {
            RunEvent::Succeeded
        },
        RunAction::Spawn(_) => RunEvent::Spawned,
        RunAction::Join => RunEvent::Joined {
            first_failed: first_failed_beside(async_flags, fails, 0, launched),
        },
        RunAction::Done(_) => RunEvent::Begin,
    }
}

/// The actions of the work from `progress` on, in their order, up to the
/// one that ends it (or as many as `fuel` allows).
pub open spec fn actions_from(
    handler: BuiltinHandler,
    async_flags: Seq<bool>,
    fails: spec_fn(int) -> bool,
    handler_fails: bool,
    progress: Progress,
    event: RunEvent,
    fuel: nat,
) -> Seq<RunAction>
    decreases fuel,
{
    let (after, action) = next_step(handler, async_flags, progress, event);
    if action is Done || fuel == 0 {
        seq![action]
    } else {
        seq![action] + actions_from(
            handler,
            async_flags,
            fails,
            handler_fails,
            after,
            report_of(action, async_flags, fails, handler_fails, after.next as int),
            (fuel - 1) as nat,
        )
    }
}

/// The action that sets off the script at place `i`.
pub open spec fn launch_of(async_flags: Seq<bool>, i: int) -> RunAction {
    if async_flags[i] {
        RunAction::Spawn(i as usize)
    } else {
        RunAction::Run(i as usize)
    }
}

/// The number of scripts that are set off when the setting off goes on
/// from place `from`: all that are left, or those up to the first that is
/// waited for and fails.
pub open spec fn launched_in_all(async_flags: Seq<bool>, fails: spec_fn(int) -> bool, from: int) -> int
    decreases async_flags.len() - from,
{
    if from >= async_flags.len() {
        async_flags.len() as int
    } else if !async_flags[from] && fails(from) {
        from + 1
    } else {
        launched_in_all(async_flags, fails, from + 1)
    }
}

/// The outcome when `launched` scripts have been set off: the failure of
/// the last of them if it was waited for and failed, else of the first
/// that failed beside the others, else success.
pub open spec fn outcome_after(
    async_flags: Seq<bool>,
    fails: spec_fn(int) -> bool,
    launched: int,
) -> Verdict {
    if launched > 0 && !async_flags[launched - 1] && fails(launched - 1) {
        Verdict::ScriptFailed((launched - 1) as usize)
    } else {
        match first_failed_beside(async_flags, fails, 0, launched) {
            Some(i) => Verdict::ScriptFailed(i),
            None => Verdict::Success,
        }
    }
}

/// The actions of the scripts: the scripts from place `from` are set off
/// in their order, up to the first that is waited for and fails; then the
/// rest is waited for, and the outcome is given.
pub open spec fn script_actions(async_flags: Seq<bool>, fails: spec_fn(int) -> bool, from: int) -> Seq<
    RunAction,
> {
    let launched = launched_in_all(async_flags, fails, from);
    Seq::new((launched - from) as nat, |k: int| launch_of(async_flags, from + k)).push(
        RunAction::Join,
    ).push(RunAction::Done(outcome_after(async_flags, fails, launched)))
}

/// The actions of the whole work: the handler if there is one, and, unless
/// it fails, the actions of the scripts from the first one on.
pub open spec fn all_actions(
    handler: BuiltinHandler,
    async_flags: Seq<bool>,
    fails: spec_fn(int) -> bool,
    handler_fails: bool,
) -> Seq<RunAction> {
    match handler {
        BuiltinHandler::Nothing => script_actions(async_flags, fails, 0),
        _ => if handler_fails {
            seq![RunAction::Handle(handler), RunAction::Done(Verdict::HandlerFailed)]
        } else {
            seq![RunAction::Handle(handler)] + script_actions(async_flags, fails, 0)
        },
    }
}

/// Where the setting off ends.
pub proof fn lemma_launched_in_all(async_flags: Seq<bool>, fails: spec_fn(int) -> bool, from: int)
    requires
        0 <= from <= async_flags.len(),
    ensures
        from <= launched_in_all(async_flags, fails, from) <= async_flags.len(),
        from < async_flags.len() ==> from < launched_in_all(async_flags, fails, from),
    decreases async_flags.len() - from,
{
    if from < async_flags.len() && !(!async_flags[from] && fails(from)) {
        lemma_launched_in_all(async_flags, fails, from + 1);
    }
}

/// The work on the scripts goes as `script_actions` says, from any place
/// at which the setting off stands without a failure.
pub proof fn lemma_script_actions(
    handler: BuiltinHandler,
    async_flags: Seq<bool>,
    fails: spec_fn(int) -> bool,
    handler_fails: bool,
    from: usize,
    fuel: nat,
)
    requires
        from <= async_flags.len() <= usize::MAX,
        from > 0 ==> async_flags[from - 1] || !fails(from - 1),
        fuel >= async_flags.len() - from + 2,
    ensures
        ({
            let (after, action) = launch_from(async_flags, from, None);
            seq![action] + actions_from(
                handler,
                async_flags,
                fails,
                handler_fails,
                after,
                report_of(action, async_flags, fails, handler_fails, after.next as int),
                fuel,
            ) == script_actions(async_flags, fails, from as int)
        }),
    decreases async_flags.len() - from,
{
    let (after, action) = launch_from(async_flags, from, None);
    let event = report_of(action, async_flags, fails, handler_fails, after.next as int);
    let rest = actions_from(handler, async_flags, fails, handler_fails, after, event, fuel);
    let wanted = script_actions(async_flags, fails, from as int);
    let n = async_flags.len();
    lemma_launched_in_all(async_flags, fails, from as int);
    if from >= n {
        // Nothing is left: the rest is waited for.
        let over = next_step(handler, async_flags, after, event);
        assert(over.1 == RunAction::Done(outcome_after(async_flags, fails, n as int)));
        assert(rest =~= seq![over.1]);
        assert(seq![action] + rest =~= wanted);
    } else if !async_flags[from as int] && fails(from as int) {
        // The script is waited for and fails: no further script is set off.
        let joining = next_step(handler, async_flags, after, event);
        assert(joining.1 == RunAction::Join);
        assert(joining.0.failed == Some(from));
        let joined = report_of(
            joining.1,
            async_flags,
            fails,
            handler_fails,
            joining.0.next as int,
        );
        let over = next_step(handler, async_flags, joining.0, joined);
        assert(over.1 == RunAction::Done(Verdict::ScriptFailed(from)));
        reveal_with_fuel(actions_from, 3);
        assert(rest =~= seq![joining.1, over.1]);
        assert(seq![action] + rest =~= wanted);
    } else {
        // The script is set off, and the work goes on with the next one.
        lemma_script_actions(
            handler,
            async_flags,
            fails,
            handler_fails,
            (from + 1) as usize,
            (fuel - 1) as nat,
        );
        let next = launch_from(async_flags, (from + 1) as usize, None);
        assert(next_step(handler, async_flags, after, event) == next);
        let later = script_actions(async_flags, fails, from + 1);
        assert(rest == later);
        assert(launched_in_all(async_flags, fails, from as int) == launched_in_all(
            async_flags,
            fails,
            from + 1,
        ));
        assert(seq![action] + later =~= wanted);
    }
}

/// The whole work goes as `all_actions` says: the handler first; then the
/// scripts in their order, each set off once, up to the first that is
/// waited for and fails; then the waiting; and last the outcome.
pub proof fn lemma_actions_in_order(
    handler: BuiltinHandler,
    async_flags: Seq<bool>,
    fails: spec_fn(int) -> bool,
    handler_fails: bool,
)
    requires
        async_flags.len() <= usize::MAX,
    ensures
        actions_from(
            handler,
            async_flags,
            fails,
            handler_fails,
            not_begun(),
            RunEvent::Begin,
            async_flags.len() + 4,
        ) == all_actions(handler, async_flags, fails, handler_fails),
{
    let fuel = async_flags.len() + 4;
    let got = actions_from(
        handler,
        async_flags,
        fails,
        handler_fails,
        not_begun(),
        RunEvent::Begin,
        fuel,
    );
    match handler {
        BuiltinHandler::Nothing => {
            lemma_script_actions(handler, async_flags, fails, handler_fails, 0, (fuel - 1) as nat);
        },
        _ => {
            let handling = Progress { stage: Stage::Handling, next: 0, failed: None };
            if handler_fails {
                reveal_with_fuel(actions_from, 2);
                assert(got =~= all_actions(handler, async_flags, fails, handler_fails));
            } else {
                lemma_script_actions(
                    handler,
                    async_flags,
                    fails,
                    handler_fails,
                    0,
                    (fuel - 2) as nat,
                );
                let (after, action) = launch_from(async_flags, 0, None);
                let rest = actions_from(
                    handler,
                    async_flags,
                    fails,
                    handler_fails,
                    handling,
                    RunEvent::Handled,
                    (fuel - 1) as nat,
                );
                assert(rest =~= script_actions(async_flags, fails, 0));
                assert(got =~= seq![RunAction::Handle(handler)] + rest);
            }
        },
    }
}

/// Tells of each script whether it runs beside the others.
pub open spec fn flags_of(scripts: Seq<crate::hooks::ScriptRunView>) -> Seq<bool> {
    Seq::new(scripts.len(), |i: int| scripts[i].is_async)
}

impl Progress {
    /// The progress of work that has not begun.
    pub fn new() -> (r: Progress)
        ensures
            r == not_begun(),
    {
        Progress { stage: Stage::Start, next: 0, failed: None }
    }
}

/// How the work goes on with the scripts from place `next`.
fn launch(scripts: &Vec<crate::hooks::ScriptRun>, next: usize, failed: Option<usize>) -> (r: (
    Progress,
    RunAction,
))
    ensures
        r == launch_from(flags_of(scripts.deep_view()), next, failed),
{
    if failed.is_some() || next >= scripts.len() || next == usize::MAX {
        (Progress { stage: Stage::Joining, next, failed }, RunAction::Join)
    } else {
        let action = if scripts[next].is_async {
            RunAction::Spawn(next)
        } else {
            RunAction::Run(next)
        };
        (Progress { stage: Stage::Launching, next: next + 1, failed }, action)
    }
}

/// The outcome that is given after the waiting.
fn verdict(failed: Option<usize>, event: RunEvent) -> (r: Verdict)
    ensures
        r == verdict_of(failed, event),
{
    match failed {
        Some(i) => Verdict::ScriptFailed(i),
        None => match event {
            RunEvent::Joined { first_failed: Some(i) } => Verdict::ScriptFailed(i),
            _ => Verdict::Success,
        },
    }
}

/// One step of the work on the runs of a hook or of a cron job: takes
/// where the work stands and what has just happened, and answers with where
/// it stands now and what is to be done next.
///
/// The work begins with `Progress::new()` and is over when the action is
/// `Done`. Between two steps the caller does what the action says and
/// reports it: `Handled` or `Failed` after `Handle`, `Succeeded` or
/// `Failed` after `Run`, `Spawned` after `Spawn`, and `Joined` after
/// `Join`.
pub fn next_action(
    handler: BuiltinHandler,
    scripts: &Vec<crate::hooks::ScriptRun>,
    progress: Progress,
    event: RunEvent,
) -> (r: (Progress, RunAction))
    ensures
        r == next_step(handler, flags_of(scripts.deep_view()), progress, event),
{
    match progress.stage {
        Stage::Start => match handler {
            BuiltinHandler::Nothing => launch(scripts, 0, None),
            _ => (
                Progress { stage: Stage::Handling, next: 0, failed: None },
                RunAction::Handle(handler),
            ),
        },
        Stage::Handling => match event {
            RunEvent::Failed => (
                Progress { stage: Stage::Over, next: 0, failed: None },
                RunAction::Done(Verdict::HandlerFailed),
            ),
            _ => launch(scripts, 0, None),
        },
        Stage::Launching => match event {
            RunEvent::Failed => {
                let last: usize = if progress.next > 0 {
                    progress.next - 1
                } else {
                    0
                };
                let failed = match progress.failed {
                    Some(i) => Some(i),
                    None => Some(last),
                };
                launch(scripts, progress.next, failed)
            },
            _ => launch(scripts, progress.next, progress.failed),
        },
        Stage::Joining => (
            Progress { stage: Stage::Over, next: progress.next, failed: progress.failed },
            RunAction::Done(verdict(progress.failed, event)),
        ),
        Stage::Over => (progress, RunAction::Done(verdict(progress.failed, event))),
    }
}

} // verus!
