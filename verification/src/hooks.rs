//! What a hook sets off: the handler that the daemon has built in for it,
//! and the scripts of the charm with the ids and the environment they run
//! under.

use crate::script::{
    host_script_path, host_script_path_of, script_environment, script_environment_of,
};
use crate::reconcile::{unit_status, with_status};
use crate::state::{DaemonState, DaemonStateView, LuckyMetadata, ScriptEntryView};
use crate::status::{ScriptState, ScriptStatus, ScriptStatusView};
use crate::strmap::{lookup, StrMap};
use crate::text::{decimal, decimal_digits};
use vstd::prelude::*;

verus! {

/// The handlers that the daemon has built in.
#[derive(Clone, Copy, Debug, PartialEq, Eq, Structural)]
pub enum BuiltinHandler {
    /// Makes sure that Docker is installed, where the charm uses it.
    Install,
    /// Stops and deletes every container and empties the slots.
    Stop,
    /// There is none for the hook.
    Nothing,
}

/// The handler that runs before the scripts of a hook.
pub open spec fn builtin_handler_of(hook_name: Seq<char>) -> BuiltinHandler {
    if hook_name == "install"@ {
        BuiltinHandler::Install
    } else if hook_name == "stop"@ {
        BuiltinHandler::Stop
    } else {
        BuiltinHandler::Nothing
    }
}

/// Picks the handler that runs before the scripts of a hook. No hook has
/// one that runs after them.
pub fn handle_hook(hook_name: &String) -> (r: BuiltinHandler)
    ensures
        r == builtin_handler_of(hook_name@),
{
    if *hook_name == "install".to_owned() {
        BuiltinHandler::Install
    } else if *hook_name == "stop".to_owned() {
        BuiltinHandler::Stop
    } else {
        BuiltinHandler::Nothing
    }
}

/// The id under which the daemon reports its own status while it installs
/// Docker.
pub open spec fn install_script_id() -> Seq<char> {
    "__lucky::daemon::hook_handlers::handle_install"@
}

/// The state once the install handler has begun: where the charm uses
/// Docker the daemon reports that it installs it.
pub open spec fn install_begun(s: DaemonStateView, use_docker: bool) -> DaemonStateView {
    if use_docker {
        with_status(
            s,
            install_script_id(),
            ScriptStatusView {
                state: ScriptState::Maintenance,
                message: Some("Installing docker"@),
            },
        )
    } else {
        s
    }
}

/// The state once Docker is known to be installed: the daemon reports that
/// it is active.
pub open spec fn install_finished(s: DaemonStateView) -> DaemonStateView {
    with_status(
        s,
        install_script_id(),
        ScriptStatusView { state: ScriptState::Active, message: None },
    )
}

impl DaemonState {
    /// Begins the install handler. Where the charm uses Docker, the result
    /// is the status of the unit that is to be published before Docker is
    /// installed; where it does not, there is nothing to do.
    pub fn begin_install(&mut self, use_docker: bool) -> (r: Option<ScriptStatus>)
        ensures
            final(self)@ == install_begun(old(self)@, use_docker),
            r.deep_view() == (if use_docker {
                Some(unit_status(final(self)@))
            } else {
                None
            }),
    {
        if use_docker {
            Some(
                self.set_script_status(
                    "__lucky::daemon::hook_handlers::handle_install".to_owned(),
                    ScriptStatus {
                        state: ScriptState::Maintenance,
                        message: Some("Installing docker".to_owned()),
                    },
                ),
            )
        } else {
            None
        }
    }

    /// Ends the install handler once Docker is installed. The result is the
    /// status of the unit that is to be published.
    pub fn finish_install(&mut self) -> (r: ScriptStatus)
        ensures
            final(self)@ == install_finished(old(self)@),
            r@ == unit_status(final(self)@),
    {
        self.set_script_status(
            "__lucky::daemon::hook_handlers::handle_install".to_owned(),
            ScriptStatus { state: ScriptState::Active, message: None },
        )
    }
}

/// One run of a script, with all that is needed to start it.
#[derive(Debug)]
pub struct ScriptRun {
    /// The id under which the script reports its status.
    pub script_id: String,
    /// The name of the script.
    pub script: String,
    /// The file that is executed.
    pub command: String,
    /// The environment of the process.
    pub environment: StrMap<String>,
    /// Whether the script runs beside the others instead of in its turn.
    pub is_async: bool,
    /// Whether the desired state of the containers is applied once the
    /// script has ended.
    pub apply_updates_after: bool,
}

/// The model of a `ScriptRun`.
pub struct ScriptRunView {
    pub script_id: Seq<char>,
    pub script: Seq<char>,
    pub command: Seq<char>,
    pub environment: Seq<(Seq<char>, Seq<char>)>,
    pub is_async: bool,
    pub apply_updates_after: bool,
}

impl DeepView for ScriptRun {
    type V = ScriptRunView;

    open spec fn deep_view(&self) -> ScriptRunView {
        ScriptRunView {
            script_id: self.script_id@,
            script: self.script@,
            command: self.command@,
            environment: self.environment.deep_view(),
            is_async: self.is_async,
            apply_updates_after: self.apply_updates_after,
        }
    }
}

/// What the runs of one hook or cron tick have in common.
#[derive(Debug)]
pub struct RunContext {
    /// The name of the hook; `cron` for a cron job.
    pub hook_name: String,
    /// The variables that the caller hands to the scripts.
    pub environment: StrMap<String>,
    /// The search path of the scripts.
    pub search_path: String,
    /// The directory of the charm.
    pub charm_dir: String,
    /// Whether the charm uses Docker.
    pub use_docker: bool,
}

/// The model of a `RunContext`.
pub struct RunContextView {
    pub hook_name: Seq<char>,
    pub environment: Seq<(Seq<char>, Seq<char>)>,
    pub search_path: Seq<char>,
    pub charm_dir: Seq<char>,
    pub use_docker: bool,
}

impl DeepView for RunContext {
    type V = RunContextView;

    open spec fn deep_view(&self) -> RunContextView {
        RunContextView {
            hook_name: self.hook_name@,
            environment: self.environment.deep_view(),
            search_path: self.search_path@,
            charm_dir: self.charm_dir@,
            use_docker: self.use_docker,
        }
    }
}

/// The run of the script `entry` under the id `script_id`: the script is
/// the host script of that name, its environment is that of the context
/// with the id and the hook's name in it, and the containers are applied
/// after it where the charm uses Docker.
pub open spec fn run_of(context: RunContextView, script_id: Seq<char>, entry: ScriptEntryView) -> ScriptRunView {
    ScriptRunView {
        script_id,
        script: entry.script,
        command: host_script_path_of(context.charm_dir, entry.script),
        environment: script_environment_of(
            context.search_path,
            script_id,
            context.hook_name,
            context.environment,
        ),
        is_async: entry.is_async,
        apply_updates_after: context.use_docker,
    }
}

/// The id of the script at place `index` of a hook: the hook's name, `_`,
/// and the place in decimal.
pub open spec fn hook_script_id_of(hook_name: Seq<char>, index: nat) -> Seq<char> {
    hook_name + seq!['_'] + decimal_digits(index)
}

/// The id of the script at place `index` of a hook.
pub fn hook_script_id(hook_name: &str, index: usize) -> (r: String)
    ensures
        r@ == hook_script_id_of(hook_name@, index as nat),
{
    proof {
        reveal_strlit("_");
        assert("_"@ =~= seq!['_']);
    }
    hook_name.to_owned().concat("_").concat(decimal(index as u64).as_str())
}

/// Builds the run of one script.
pub fn script_run(context: &RunContext, script_id: String, script: &String, is_async: bool) -> (r:
    ScriptRun)
    ensures
        r.deep_view() == run_of(
            context.deep_view(),
            script_id@,
            ScriptEntryView { script: script@, is_async },
        ),
{
    let environment = script_environment(
        context.search_path.as_str(),
        script_id.as_str(),
        context.hook_name.as_str(),
        &context.environment,
    );
    ScriptRun {
        script_id,
        script: script.clone(),
        command: host_script_path(context.charm_dir.as_str(), script.as_str()),
        environment,
        is_async,
        apply_updates_after: context.use_docker,
    }
}

/// The runs of a hook: one for each script that the charm names for it, in
/// their order, the script at place `i` under the id of that place.
pub open spec fn hook_runs_of(
    hooks: Seq<(Seq<char>, Seq<ScriptEntryView>)>,
    context: RunContextView,
) -> Seq<ScriptRunView> {
    match lookup(hooks, context.hook_name) {
        Some(scripts) => Seq::new(
            scripts.len(),
            |i: int| run_of(context, hook_script_id_of(context.hook_name, i as nat), scripts[i]),
        ),
        None => Seq::empty(),
    }
}

/// Lists the runs of a hook. Scripts that are not marked as running beside
/// the others are run one after the other in the order of the list; all
/// runs are over before the hook is.
pub fn hook_scripts(metadata: &LuckyMetadata, context: &RunContext) -> (r: Vec<ScriptRun>)
    ensures
        r.deep_view() == hook_runs_of(metadata@.hooks, context.deep_view()),
{
    let mut runs: Vec<ScriptRun> = Vec::new();
    match metadata.hooks.get(&context.hook_name) {
        Some(scripts) => {
            let ghost wanted = hook_runs_of(metadata@.hooks, context.deep_view());
            let mut i: usize = 0;
            while i < scripts.len()
                invariant
                    i <= scripts@.len(),
                    wanted.len() == scripts@.len(),
                    forall|j: int|
                        0 <= j < scripts@.len() ==> #[trigger] wanted[j] == run_of(
                            context.deep_view(),
                            hook_script_id_of(context.hook_name@, j as nat),
                            scripts@[j]@,
                        ),
                    runs.deep_view() == wanted.take(i as int),
                decreases scripts@.len() - i,
            {
                let ghost before = runs.deep_view();
                let entry = &scripts[i];
                runs.push(
                    script_run(
                        context,
                        hook_script_id(context.hook_name.as_str(), i),
                        &entry.script,
                        entry.is_async,
                    ),
                );
                assert(runs.deep_view() =~= before.push(wanted[i as int]));
                assert(wanted.take(i as int + 1) =~= before.push(wanted[i as int]));
                i += 1;
            }
            assert(wanted.take(scripts@.len() as int) =~= wanted);
        },
        None => {
            assert(runs.deep_view() =~= Seq::empty());
        },
    }
    runs
}

/// The first failure among the outcomes, if any of them is one.
pub open spec fn first_error_of<E>(outcomes: Seq<Result<(), E>>) -> Result<(), E>
    decreases outcomes.len(),
{
    if outcomes.len() == 0 {
        Ok(())
    } else if outcomes[0] is Err {
        outcomes[0]
    } else {
        first_error_of(outcomes.drop_first())
    }
}

/// Gives the outcome of several runs as one: the first failure in the
/// order of the list, or success where none failed. Every run is over by
/// then; the later failures are not reported.
pub fn first_error<E>(outcomes: Vec<Result<(), E>>) -> (r: Result<(), E>)
    ensures
        r == first_error_of(outcomes@),
{
    let ghost all = outcomes@;
    let mut rest = outcomes;
    let mut found: Result<(), E> = Ok(());
    while rest.len() > 0
        invariant
            rest@.len() <= all.len(),
            rest@ == all.take(rest@.len() as int),
            found == first_error_of(all.skip(rest@.len() as int)),
        decreases rest@.len(),
    {
        let ghost n = rest@.len() as int;
        let last = rest.pop();
        proof {
            assert(all.skip(n - 1).drop_first() =~= all.skip(n));
            assert(all.skip(n - 1)[0] == all[n - 1]);
            assert(rest@ =~= all.take(n - 1));
        }
        match last {
            Some(outcome) => {
                if outcome.is_err() {
                    found = outcome;
                }
            },
            None => {},
        }
    }
    assert(all.skip(0) =~= all);
    found
}

} // verus!
