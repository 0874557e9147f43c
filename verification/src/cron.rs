//! Cron jobs: which of them are due at a tick, and the runs of their
//! scripts.
//!
//! Cron expressions are read and evaluated by the `cron` crate, in the time
//! zone of the machine. Its answers come in through the two private
//! functions at the head of this file, whose contracts are taken on trust.

use crate::error::{ValidationError, ValidationErrorView};
use crate::hooks::{run_of, script_run, RunContext, RunContextView, ScriptRun, ScriptRunView};
use crate::state::{ScriptEntry, ScriptEntryView};
use crate::strmap::StrMap;
use crate::text::{decimal, decimal_digits};
use vstd::prelude::*;

verus! {

/// The schedule that a cron expression stands for, as the `cron` crate
/// holds it.
#[verifier::external_type_specification]
#[verifier::external_body]
pub struct ExSchedule(cron::Schedule);

/// The error with which the `cron` crate refuses an expression.
#[verifier::external_type_specification]
#[verifier::external_body]
pub struct ExCronError(cron::error::Error);

/// Whether the `cron` crate accepts the text as a cron expression: six or
/// seven fields (seconds, minutes, hours, days of the month, months, days
/// of the week and, if given, years), or one of its shorthands.
pub uninterp spec fn cron_expression_parses(expression: Seq<char>) -> bool;

/// The latest time that a `Timestamp` can hold, in seconds since the epoch:
/// the last second of the year 9999.
pub const MAX_TIMESTAMP: i64 = 253_402_300_799;

/// Calls `cron::Schedule::from_str`. Trusted: the call succeeds exactly on
/// the texts that the crate accepts as cron expressions, which depends on
/// the text alone.
#[verifier::external_body]
fn parse_schedule(expression: &str) -> (r: Result<cron::Schedule, cron::error::Error>)
    ensures
        (r is Ok) == cron_expression_parses(expression@),
{
    <cron::Schedule as std::str::FromStr>::from_str(expression)
}

/// Calls `cron::Schedule::after` on the time `after_secs`, taken in the
/// time zone of the machine, and takes the first time from the iterator
/// that it returns: the next time at which the schedule fires, in seconds
/// since the epoch, if there is one. Nothing is claimed of the result,
/// which depends on the time zone.
#[verifier::external_body]
fn next_fire_after(schedule: &cron::Schedule, after_secs: i64) -> (r: Option<i64>)
    requires
        0 <= after_secs <= MAX_TIMESTAMP,
{
    let after = chrono::DateTime::from_timestamp(after_secs, 0)?.with_timezone(&chrono::Local);
    match schedule.after(&after).next() {
        Some(next) => Some(next.timestamp()),
        None => None,
    }
}

/// A point in time, in whole seconds since the epoch, from the epoch to the
/// end of the year 9999.
#[derive(Clone, Copy, Debug)]
pub struct Timestamp {
    secs: i64,
}

impl View for Timestamp {
    type V = int;

    closed spec fn view(&self) -> int {
        self.secs as int
    }
}

impl Timestamp {
    #[verifier::type_invariant]
    closed spec fn inv(&self) -> bool {
        0 <= self.secs <= MAX_TIMESTAMP
    }

    /// The time `secs` seconds after the epoch, if it is in range.
    pub fn new(secs: i64) -> (r: Option<Timestamp>)
        ensures
            match r {
                Some(t) => 0 <= secs <= MAX_TIMESTAMP && t@ == secs,
                None => !(0 <= secs <= MAX_TIMESTAMP),
            },
    {
        if 0 <= secs && secs <= MAX_TIMESTAMP {
            Some(Timestamp { secs })
        } else {
            None
        }
    }

    /// The seconds since the epoch.
    pub fn secs(&self) -> (r: i64)
        ensures
            r == self@,
            0 <= r <= MAX_TIMESTAMP,
    {
        proof {
            use_type_invariant(self);
        }
        self.secs
    }
}

/// A job is due at a tick when the next time at which its schedule fires
/// after the last tick is not later than the tick.
pub open spec fn is_due(next_fire: Option<i64>, now: int) -> bool {
    match next_fire {
        Some(t) => t <= now,
        None => false,
    }
}

/// Tells whether a job is due at the tick `now`, given the next time at
/// which its schedule fires after the last tick.
pub fn job_is_due(next_fire: Option<i64>, now: Timestamp) -> (r: bool)
    ensures
        r == is_due(next_fire, now@),
{
    match next_fire {
        Some(t) => t <= now.secs(),
        None => false,
    }
}

/// The id of the script at place `script` of the job at place `job`: the
/// hook's name, `_`, the job's place, `_`, the script's place.
pub open spec fn cron_script_id_of(hook_name: Seq<char>, job: nat, script: nat) -> Seq<char> {
    hook_name + seq!['_'] + decimal_digits(job) + seq!['_'] + decimal_digits(script)
}

/// The id of the script at place `script` of the job at place `job`.
pub fn cron_script_id(hook_name: &str, job: usize, script: usize) -> (r: String)
    ensures
        r@ == cron_script_id_of(hook_name@, job as nat, script as nat),
{
    proof {
        reveal_strlit("_");
        assert("_"@ =~= seq!['_']);
    }
    let r = hook_name.to_owned().concat("_").concat(decimal(job as u64).as_str()).concat(
        "_",
    ).concat(decimal(script as u64).as_str());
    assert(r@ =~= cron_script_id_of(hook_name@, job as nat, script as nat));
    r
}

/// A job that is due, with the runs of its scripts.
#[derive(Debug)]
pub struct CronJobRun {
    /// The cron expression of the job.
    pub schedule: String,
    /// The place of the job among the jobs of the charm.
    pub job_index: usize,
    /// The runs, in the order of the job's scripts. Those that are not
    /// marked as running beside the others run one after the other.
    pub scripts: Vec<ScriptRun>,
}

/// The model of a `CronJobRun`.
pub struct CronJobRunView {
    pub schedule: Seq<char>,
    pub job_index: nat,
    pub scripts: Seq<ScriptRunView>,
}

impl DeepView for CronJobRun {
    type V = CronJobRunView;

    open spec fn deep_view(&self) -> CronJobRunView {
        CronJobRunView {
            schedule: self.schedule@,
            job_index: self.job_index as nat,
            scripts: self.scripts.deep_view(),
        }
    }
}

/// The runs of the scripts of one job.
pub open spec fn job_scripts_of(
    context: RunContextView,
    job_index: nat,
    scripts: Seq<ScriptEntryView>,
) -> Seq<ScriptRunView> {
    Seq::new(
        scripts.len(),
        |k: int|
            run_of(context, cron_script_id_of(context.hook_name, job_index, k as nat), scripts[k]),
    )
}

/// The first `n` jobs of the charm, narrowed to those that are due at the
/// tick `now`; `next_fires` holds for each job the next time at which it
/// fires.
pub open spec fn cron_runs_upto(
    jobs: Seq<(Seq<char>, Seq<ScriptEntryView>)>,
    next_fires: Seq<Option<i64>>,
    now: int,
    context: RunContextView,
    n: nat,
) -> Seq<CronJobRunView>
    decreases n,
{
    if n == 0 {
        Seq::empty()
    } else {
        let before = cron_runs_upto(jobs, next_fires, now, context, (n - 1) as nat);
        if n <= jobs.len() && n <= next_fires.len() && is_due(next_fires[n - 1], now) {
            before.push(
                CronJobRunView {
                    schedule: jobs[n - 1].0,
                    job_index: (n - 1) as nat,
                    scripts: job_scripts_of(context, (n - 1) as nat, jobs[n - 1].1),
                },
            )
        } else {
            before
        }
    }
}

/// The jobs of the charm that are due at the tick `now`, in their order,
/// each with the runs of its scripts.
pub open spec fn cron_runs_of(
    jobs: Seq<(Seq<char>, Seq<ScriptEntryView>)>,
    next_fires: Seq<Option<i64>>,
    now: int,
    context: RunContextView,
) -> Seq<CronJobRunView> {
    cron_runs_upto(jobs, next_fires, now, context, jobs.len())
}

/// Lists the runs of the scripts of one job.
pub fn job_scripts(context: &RunContext, job_index: usize, scripts: &Vec<ScriptEntry>) -> (r: Vec<
    ScriptRun,
>)
    ensures
        r.deep_view() == job_scripts_of(
            context.deep_view(),
            job_index as nat,
            scripts.deep_view(),
        ),
{
    let ghost wanted = job_scripts_of(context.deep_view(), job_index as nat, scripts.deep_view());
    let mut runs: Vec<ScriptRun> = Vec::new();
    let mut k: usize = 0;
    while k < scripts.len()
        invariant
            k <= scripts@.len(),
            wanted == job_scripts_of(context.deep_view(), job_index as nat, scripts.deep_view()),
            runs.deep_view() == wanted.take(k as int),
        decreases scripts@.len() - k,
    {
        let ghost before = runs.deep_view();
        let entry = &scripts[k];
        runs.push(
            script_run(
                context,
                cron_script_id(context.hook_name.as_str(), job_index, k),
                &entry.script,
                entry.is_async,
            ),
        );
        assert(runs.deep_view() =~= before.push(wanted[k as int]));
        assert(wanted.take(k as int + 1) =~= before.push(wanted[k as int]));
        k += 1;
    }
    assert(wanted.take(scripts@.len() as int) =~= wanted);
    runs
}

/// Lists the jobs that are due at the tick `now`, each with the runs of its
/// scripts. `next_fires` holds for each job, in the order of the jobs, the
/// next time at which its schedule fires after the last tick.
pub fn cron_job_runs(
    jobs: &StrMap<Vec<ScriptEntry>>,
    next_fires: &Vec<Option<i64>>,
    now: Timestamp,
    context: &RunContext,
) -> (r: Vec<CronJobRun>)
    ensures
        r.deep_view() == cron_runs_of(jobs.deep_view(), next_fires@, now@, context.deep_view()),
{
    let mut due: Vec<CronJobRun> = Vec::new();
    let n: usize = jobs.len();
    let mut j: usize = 0;
    while j < n
        invariant
            n == jobs.entries().len(),
            j <= n,
            due.deep_view() == cron_runs_upto(
                jobs.entries(),
                next_fires@,
                now@,
                context.deep_view(),
                j as nat,
            ),
        decreases n - j,
    {
        let ghost before = due.deep_view();
        if j < next_fires.len() && job_is_due(next_fires[j], now) {
            due.push(
                CronJobRun {
                    schedule: jobs.key_at(j).clone(),
                    job_index: j,
                    scripts: job_scripts(context, j, jobs.value_at(j)),
                },
            );
            assert(due.deep_view() =~= before.push(
                CronJobRunView {
                    schedule: jobs.entries()[j as int].0,
                    job_index: j as nat,
                    scripts: job_scripts_of(
                        context.deep_view(),
                        j as nat,
                        jobs.entries()[j as int].1,
                    ),
                },
            ));
        }
        j += 1;
    }
    due
}

/// The place of the first job whose expression the `cron` crate does not
/// accept; the number of jobs where it accepts them all.
pub open spec fn first_invalid(jobs: Seq<(Seq<char>, Seq<ScriptEntryView>)>) -> int
    decreases jobs.len(),
{
    if jobs.len() == 0 {
        0
    } else if !cron_expression_parses(jobs[0].0) {
        0
    } else {
        1 + first_invalid(jobs.drop_first())
    }
}

/// What `first_invalid` finds.
pub proof fn lemma_first_invalid(jobs: Seq<(Seq<char>, Seq<ScriptEntryView>)>)
    ensures
        0 <= first_invalid(jobs) <= jobs.len(),
        forall|i: int| 0 <= i < first_invalid(jobs) ==> cron_expression_parses((#[trigger] jobs[i]).0),
        first_invalid(jobs) < jobs.len() ==> !cron_expression_parses(jobs[first_invalid(jobs)].0),
    decreases jobs.len(),
{
    if jobs.len() > 0 && cron_expression_parses(jobs[0].0) {
        let rest = jobs.drop_first();
        lemma_first_invalid(rest);
        assert forall|i: int| 0 <= i < first_invalid(jobs) implies cron_expression_parses(
            (#[trigger] jobs[i]).0,
        ) by {
            if i > 0 {
                assert(jobs[i] == rest[i - 1]);
            }
        }
        if first_invalid(jobs) < jobs.len() {
            assert(jobs[first_invalid(jobs)] == rest[first_invalid(rest)]);
        }
    }
}

/// Reads the cron expression of every job and asks for each the next time
/// at which it fires after `last_tick`. Fails on the first expression that
/// is no cron expression.
pub fn next_fires(jobs: &StrMap<Vec<ScriptEntry>>, last_tick: Timestamp) -> (r: Result<
    Vec<Option<i64>>,
    ValidationError,
>)
    ensures
        match r {
            Ok(fires) => first_invalid(jobs.deep_view()) == jobs.deep_view().len() && fires@.len()
                == jobs.deep_view().len(),
            Err(e) => 0 <= first_invalid(jobs.deep_view()) < jobs.deep_view().len() && e@ == (
            ValidationErrorView::InvalidSchedule {
                expression: jobs.deep_view()[first_invalid(jobs.deep_view())].0,
            }),
        },
{
    proof {
        lemma_first_invalid(jobs.entries());
    }
    let mut fires: Vec<Option<i64>> = Vec::new();
    let n: usize = jobs.len();
    let mut j: usize = 0;
    while j < n
        invariant
            n == jobs.entries().len(),
            j <= n,
            fires@.len() == j,
            j <= first_invalid(jobs.entries()),
            first_invalid(jobs.entries()) <= jobs.entries().len(),
            forall|i: int|
                0 <= i < first_invalid(jobs.entries()) ==> cron_expression_parses(
                    (#[trigger] jobs.entries()[i]).0,
                ),
            first_invalid(jobs.entries()) < jobs.entries().len() ==> !cron_expression_parses(
                jobs.entries()[first_invalid(jobs.entries())].0,
            ),
        decreases n - j,
    {
        let expression = jobs.key_at(j);
        match parse_schedule(expression.as_str()) {
            Ok(schedule) => {
                assert(cron_expression_parses(jobs.entries()[j as int].0));
                fires.push(next_fire_after(&schedule, last_tick.secs()));
            },
            Err(_) => {
                assert(!cron_expression_parses(jobs.entries()[j as int].0));
                return Err(ValidationError::InvalidSchedule { expression: expression.clone() });
            },
        }
        j += 1;
    }
    Ok(fires)
}

} // verus!
