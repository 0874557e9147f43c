//! The daemon: the state, the charm's metadata and the places it works
//! with, and its answers to the requests that set work off: a hook, a cron
//! tick, applying the containers, and the request to stop.

use crate::cron::{cron_job_runs, cron_runs_of, first_invalid, next_fires, CronJobRun, Timestamp};
use crate::error::{ValidationError, ValidationErrorView};
use crate::hooks::{
    builtin_handler_of, handle_hook, hook_runs_of, hook_scripts, BuiltinHandler, RunContext,
    RunContextView, ScriptRun,
};
use crate::reconcile::{
    apply_container_updates, unit_status, work_step, Action, ActionView, Cursor, Event, Paths,
    PathsView, Purpose,
};
use crate::state::{empty_state, DaemonState, DaemonStateView, LuckyMetadata, LuckyMetadataView};
use crate::status::ScriptStatus;
use crate::strmap::{put, StrMap};
use vstd::prelude::*;

verus! {

/// What a daemon is made from.
#[derive(Debug)]
pub struct LuckyDaemonOptions {
    pub lucky_metadata: LuckyMetadata,
    pub charm_dir: String,
    pub data_dir: String,
    pub socket_path: String,
}

/// The daemon of one unit.
#[derive(Debug)]
pub struct LuckyDaemon {
    /// The places of the host that the daemon works with.
    pub paths: Paths,
    /// What the charm says of itself.
    pub lucky_metadata: LuckyMetadata,
    /// Set once the daemon has been asked to stop: whoever serves requests
    /// takes no new ones then.
    pub stop_listening: bool,
    /// The state that is kept across restarts.
    pub state: DaemonState,
    /// The time of the last cron tick.
    pub last_cron_tick: Timestamp,
}

/// The model of a `LuckyDaemon`.
pub struct LuckyDaemonView {
    pub paths: PathsView,
    pub lucky_metadata: LuckyMetadataView,
    pub stop_listening: bool,
    pub state: DaemonStateView,
    pub last_cron_tick: int,
}

impl DeepView for LuckyDaemon {
    type V = LuckyDaemonView;

    open spec fn deep_view(&self) -> LuckyDaemonView {
        LuckyDaemonView {
            paths: self.paths.deep_view(),
            lucky_metadata: self.lucky_metadata@,
            stop_listening: self.stop_listening,
            state: self.state@,
            last_cron_tick: self.last_cron_tick@,
        }
    }
}

impl View for LuckyDaemon {
    type V = LuckyDaemonView;

    open spec fn view(&self) -> LuckyDaemonView {
        self.deep_view()
    }
}

/// What a hook sets off.
#[derive(Debug)]
pub struct HookPlan {
    /// The handler of the daemon that runs before the scripts.
    pub handler: BuiltinHandler,
    /// The runs of the charm's scripts, in their order.
    pub scripts: Vec<ScriptRun>,
}

/// What the runs of a hook have in common: the caller's variables with the
/// name of the hook among them.
pub open spec fn hook_context_of(
    daemon: LuckyDaemonView,
    hook_name: Seq<char>,
    environment: Seq<(Seq<char>, Seq<char>)>,
    search_path: Seq<char>,
) -> RunContextView {
    RunContextView {
        hook_name,
        environment: put(environment, "LUCKY_HOOK"@, hook_name),
        search_path,
        charm_dir: daemon.paths.charm_dir,
        use_docker: daemon.lucky_metadata.use_docker,
    }
}

/// What the runs of a cron tick have in common: they run under the hook
/// name `cron` and are told the orchestrator's context.
pub open spec fn cron_context_of(
    daemon: LuckyDaemonView,
    juju_context_id: Seq<char>,
    search_path: Seq<char>,
) -> RunContextView {
    RunContextView {
        hook_name: "cron"@,
        environment: seq![("JUJU_CONTEXT_ID"@, juju_context_id)],
        search_path,
        charm_dir: daemon.paths.charm_dir,
        use_docker: daemon.lucky_metadata.use_docker,
    }
}

impl LuckyDaemon {
    /// Makes a daemon. It starts from the state that was loaded from disk,
    /// or from the empty state where none could be loaded. The second
    /// result is the status of the unit, which is to be published.
    pub fn new(options: LuckyDaemonOptions, loaded: Option<DaemonState>, now: Timestamp) -> (r: (
        Self,
        ScriptStatus,
    ))
        ensures
            r.0@ == (LuckyDaemonView {
                paths: PathsView {
                    charm_dir: options.charm_dir@,
                    data_dir: options.data_dir@,
                    socket_path: options.socket_path@,
                },
                lucky_metadata: options.lucky_metadata@,
                stop_listening: false,
                state: match loaded {
                    Some(state) => state@,
                    None => empty_state(),
                },
                last_cron_tick: now@,
            }),
            r.1@ == unit_status(r.0@.state),
    {
        let state = match loaded {
            Some(state) => state,
            None => DaemonState::new(),
        };
        let status = state.get_juju_status();
        let daemon = LuckyDaemon {
            paths: Paths {
                charm_dir: options.charm_dir,
                data_dir: options.data_dir,
                socket_path: options.socket_path,
            },
            lucky_metadata: options.lucky_metadata,
            stop_listening: false,
            state,
            last_cron_tick: now,
        };
        (daemon, status)
    }

    /// Notes that the daemon has been asked to stop.
    pub fn stop_daemon(&mut self)
        ensures
            final(self)@ == (LuckyDaemonView { stop_listening: true, ..old(self)@ }),
    {
        self.stop_listening = true;
    }

    /// What the hook `hook_name` sets off: the handler that the daemon has
    /// built in for it, which runs first, and then the runs of the scripts
    /// that the charm names for the hook. `environment` holds the variables
    /// of the caller; the scripts get them, and the name of the hook with
    /// them.
    pub fn trigger_hook(
        &self,
        hook_name: String,
        environment: StrMap<String>,
        search_path: String,
    ) -> (r: HookPlan)
        ensures
            r.handler == builtin_handler_of(hook_name@),
            r.scripts.deep_view() == hook_runs_of(
                self@.lucky_metadata.hooks,
                hook_context_of(self@, hook_name@, environment.deep_view(), search_path@),
            ),
    {
        let handler = handle_hook(&hook_name);
        let mut environment = environment;
        environment.insert("LUCKY_HOOK".to_owned(), hook_name.clone());
        let context = RunContext {
            hook_name,
            environment,
            search_path,
            charm_dir: self.paths.charm_dir.clone(),
            use_docker: self.lucky_metadata.use_docker,
        };
        HookPlan { handler, scripts: hook_scripts(&self.lucky_metadata, &context) }
    }

    /// The cron tick at the time `now`: lists the jobs that are due, each
    /// with the runs of its scripts, and takes `now` as the time of the
    /// last tick. A job is due when the next time at which its schedule
    /// fires after the last tick is not later than `now`.
    ///
    /// Where the expression of a job is no cron expression the whole tick
    /// fails, with the first such expression, and nothing changes.
    pub fn cron_tick(&mut self, now: Timestamp, juju_context_id: String, search_path: String) -> (r:
        Result<Vec<CronJobRun>, ValidationError>)
        ensures
            match r {
                Ok(runs) => {
                    &&& first_invalid(old(self)@.lucky_metadata.cron_jobs) == old(
                        self,
                    )@.lucky_metadata.cron_jobs.len()
                    &&& final(self)@ == (LuckyDaemonView { last_cron_tick: now@, ..old(self)@ })
                    &&& exists|fires: Seq<Option<i64>>|
                        fires.len() == old(self)@.lucky_metadata.cron_jobs.len()
                            && runs.deep_view() == #[trigger] cron_runs_of(
                            old(self)@.lucky_metadata.cron_jobs,
                            fires,
                            now@,
                            cron_context_of(old(self)@, juju_context_id@, search_path@),
                        )
                },
                Err(e) => {
                    let jobs = old(self)@.lucky_metadata.cron_jobs;
                    &&& 0 <= first_invalid(jobs) < jobs.len()
                    &&& e@ == (ValidationErrorView::InvalidSchedule {
                        expression: jobs[first_invalid(jobs)].0,
                    })
                    &&& final(self)@ == old(self)@
                },
            },
    {
        let fires = match next_fires(&self.lucky_metadata.cron_jobs, self.last_cron_tick) {
            Ok(fires) => fires,
            Err(e) => {
                return Err(e);
            },
        };
        let ghost context_id = juju_context_id@;
        let ghost path = search_path@;
        let mut environment: StrMap<String> = StrMap::new();
        environment.insert("JUJU_CONTEXT_ID".to_owned(), juju_context_id);
        assert(environment.deep_view() =~= seq![("JUJU_CONTEXT_ID"@, context_id)]);
        let context = RunContext {
            hook_name: "cron".to_owned(),
            environment,
            search_path,
            charm_dir: self.paths.charm_dir.clone(),
            use_docker: self.lucky_metadata.use_docker,
        };
        let ghost wanted = cron_context_of(self@, context_id, path);
        assert(context.deep_view() == wanted);
        let runs = cron_job_runs(&self.lucky_metadata.cron_jobs, &fires, now, &context);
        assert(runs.deep_view() == cron_runs_of(
            self@.lucky_metadata.cron_jobs,
            fires@,
            now@,
            wanted,
        ));
        self.last_cron_tick = now;
        Ok(runs)
    }

    /// One step of applying the desired state of the containers, as
    /// `apply_container_updates` describes it. Where the charm does not use
    /// Docker there is nothing to apply: the work is over at once.
    pub fn container_apply(&mut self, cursor: Cursor, event: Event) -> (r: (Cursor, Action))
        ensures
            old(self)@.lucky_metadata.use_docker ==> {
                let step = work_step(
                    Purpose::Apply,
                    old(self)@.state,
                    cursor,
                    event.deep_view(),
                    old(self)@.paths,
                );
                &&& final(self)@ == (LuckyDaemonView { state: step.0, ..old(self)@ })
                &&& r.0 == step.1
                &&& r.1.deep_view() == step.2
            },
            !old(self)@.lucky_metadata.use_docker ==> final(self)@ == old(self)@ && r.0
                == Cursor::Finished && r.1.deep_view() == ActionView::Done,
    {
        if self.lucky_metadata.use_docker {
            apply_container_updates(&mut self.state, Purpose::Apply, cursor, event, &self.paths)
        } else {
            (Cursor::Finished, Action::Done)
        }
    }

    /// One step of the handler of the `stop` hook: every container that
    /// runs is stopped and deleted, and in the end all slots are empty. The
    /// steps go as `apply_container_updates` describes it.
    pub fn handle_stop(&mut self, cursor: Cursor, event: Event) -> (r: (Cursor, Action))
        ensures
            ({
                let step = work_step(
                    Purpose::RemoveAll,
                    old(self)@.state,
                    cursor,
                    event.deep_view(),
                    old(self)@.paths,
                );
                &&& final(self)@ == (LuckyDaemonView { state: step.0, ..old(self)@ })
                &&& r.0 == step.1
                &&& r.1.deep_view() == step.2
            }),
    {
        apply_container_updates(&mut self.state, Purpose::RemoveAll, cursor, event, &self.paths)
    }

    /// Begins the handler of the `install` hook: see
    /// `DaemonState::begin_install`.
    pub fn handle_install(&mut self) -> (r: Option<ScriptStatus>)
        ensures
            final(self)@ == (LuckyDaemonView {
                state: crate::hooks::install_begun(
                    old(self)@.state,
                    old(self)@.lucky_metadata.use_docker,
                ),
                ..old(self)@
            }),
            r.deep_view() == (if old(self)@.lucky_metadata.use_docker {
                Some(unit_status(final(self)@.state))
            } else {
                None
            }),
    {
        self.state.begin_install(self.lucky_metadata.use_docker)
    }

    /// Ends the handler of the `install` hook once Docker is installed:
    /// see `DaemonState::finish_install`.
    pub fn install_finished(&mut self) -> (r: ScriptStatus)
        ensures
            final(self)@ == (LuckyDaemonView {
                state: crate::hooks::install_finished(old(self)@.state),
                ..old(self)@
            }),
            r@ == unit_status(final(self)@.state),
    {
        self.state.finish_install()
    }
}

} // verus!
