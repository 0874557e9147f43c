use lucky::cron::{cron_job_runs, cron_script_id, job_is_due, next_fires, Timestamp};
use lucky::daemon::{LuckyDaemon, LuckyDaemonOptions};
use lucky::error::ValidationError;
use lucky::hooks::RunContext;
use lucky::state::{LuckyMetadata, ScriptEntry};
use lucky::strmap::StrMap;

fn entry(script: &str, is_async: bool) -> ScriptEntry {
    ScriptEntry { script: script.to_string(), is_async }
}

fn at(secs: i64) -> Timestamp {
    Timestamp::new(secs).unwrap()
}

fn daemon(jobs: Vec<(&str, Vec<ScriptEntry>)>, last_tick: i64) -> LuckyDaemon {
    let mut cron_jobs = StrMap::new();
    for (expression, scripts) in jobs {
        cron_jobs.insert(expression.to_string(), scripts);
    }
    let options = LuckyDaemonOptions {
        lucky_metadata: LuckyMetadata { use_docker: true, hooks: StrMap::new(), cron_jobs },
        charm_dir: "/charm".to_string(),
        data_dir: "/data".to_string(),
        socket_path: "/sock".to_string(),
    };
    LuckyDaemon::new(options, None, at(last_tick)).0
}

fn context() -> RunContext {
    RunContext {
        hook_name: "cron".to_string(),
        environment: StrMap::new(),
        search_path: "/p".to_string(),
        charm_dir: "/charm".to_string(),
        use_docker: false,
    }
}

#[test]
fn timestamps_range_from_the_epoch_to_the_year_9999() {
    assert!(Timestamp::new(-1).is_none());
    assert_eq!(Timestamp::new(0).unwrap().secs(), 0);
    assert_eq!(Timestamp::new(253_402_300_799).unwrap().secs(), 253_402_300_799);
    assert!(Timestamp::new(253_402_300_800).is_none());
    assert!(Timestamp::new(i64::MAX).is_none());
}

#[test]
fn a_job_is_due_when_it_fires_at_or_before_the_tick() {
    assert!(job_is_due(Some(99), at(100)));
    assert!(job_is_due(Some(100), at(100)));
    assert!(!job_is_due(Some(101), at(100)));
    assert!(!job_is_due(None, at(100)));
}

#[test]
fn cron_script_ids_are_name_job_and_script() {
    assert_eq!(cron_script_id("cron", 0, 0), "cron_0_0");
    assert_eq!(cron_script_id("cron", 3, 11), "cron_3_11");
}

#[test]
fn a_job_that_fires_every_minute_runs_once_at_the_tick() {
    let now = 1_700_000_000;
    let mut daemon = daemon(vec![("0 */1 * * * *", vec![entry("job.sh", false)])], now - 300);
    let runs = daemon.cron_tick(at(now), "ABC".to_string(), "/p".to_string()).unwrap();
    assert_eq!(runs.len(), 1);
    assert_eq!(runs[0].schedule, "0 */1 * * * *");
    assert_eq!(runs[0].job_index, 0);
    assert_eq!(runs[0].scripts.len(), 1);
    let run = &runs[0].scripts[0];
    assert_eq!(run.script_id, "cron_0_0");
    assert_eq!(run.script, "job.sh");
    assert_eq!(run.command, "/charm/host_scripts/job.sh");
    assert!(!run.is_async);
    assert!(run.apply_updates_after);
    let get = |key: &str| run.environment.get(&key.to_string()).cloned();
    assert_eq!(get("JUJU_CONTEXT_ID"), Some("ABC".to_string()));
    assert_eq!(get("LUCKY_HOOK"), Some("cron".to_string()));
    assert_eq!(get("LUCKY_SCRIPT_ID"), Some("cron_0_0".to_string()));
    assert_eq!(get("LUCKY_CONTEXT"), Some("client".to_string()));
    assert_eq!(get("PATH"), Some("/p".to_string()));
    assert_eq!(daemon.last_cron_tick.secs(), now);
}

#[test]
fn a_job_that_does_not_fire_before_the_tick_is_not_run() {
    let now = 1_700_000_000;
    let mut daemon = daemon(
        vec![
            ("* * * * * *", vec![entry("often.sh", true), entry("too.sh", false)]),
            ("0 0 0 1 1 * 2099", vec![entry("rare.sh", false)]),
            ("* * * * * * 1999", vec![entry("past.sh", false)]),
            ("@hourly", vec![]),
        ],
        now - 1,
    );
    let runs = daemon.cron_tick(at(now), "ctx".to_string(), "/p".to_string()).unwrap();
    let fired: Vec<usize> = runs.iter().map(|r| r.job_index).collect();
    assert_eq!(fired, vec![0]);
    let ids: Vec<&str> = runs[0].scripts.iter().map(|s| s.script_id.as_str()).collect();
    assert_eq!(ids, vec!["cron_0_0", "cron_0_1"]);
    assert!(runs[0].scripts[0].is_async);
    assert_eq!(daemon.last_cron_tick.secs(), now);
    let again = daemon.cron_tick(at(now), "ctx".to_string(), "/p".to_string()).unwrap();
    assert!(again.is_empty());
}

#[test]
fn an_invalid_expression_fails_the_whole_tick() {
    let now = 1_700_000_000;
    let mut daemon = daemon(
        vec![
            ("* * * * * *", vec![entry("a.sh", false)]),
            ("not a schedule", vec![entry("b.sh", false)]),
            ("*/1 * * * *", vec![entry("c.sh", false)]),
        ],
        now - 60,
    );
    let refused = daemon.cron_tick(at(now), "ctx".to_string(), "/p".to_string());
    match &refused {
        Err(ValidationError::InvalidSchedule { expression }) => {
            assert_eq!(expression, "not a schedule")
        }
        _ => panic!("the tick did not fail"),
    }
    assert_eq!(refused.unwrap_err().message(), "Invalid cron expression: not a schedule");
    assert_eq!(daemon.last_cron_tick.secs(), now - 60);
}

#[test]
fn an_expression_of_five_fields_is_refused() {
    let mut jobs = StrMap::new();
    jobs.insert("*/1 * * * *".to_string(), vec![entry("c.sh", false)]);
    assert!(matches!(next_fires(&jobs, at(0)), Err(ValidationError::InvalidSchedule { .. })));
}

#[test]
fn next_fires_has_one_answer_for_each_job() {
    let mut jobs = StrMap::new();
    jobs.insert("* * * * * *".to_string(), vec![]);
    jobs.insert("* * * * * * 1999".to_string(), vec![]);
    let fires = next_fires(&jobs, at(1_700_000_000)).unwrap();
    assert_eq!(fires, vec![Some(1_700_000_001), None]);
    assert_eq!(next_fires(&StrMap::new(), at(0)).unwrap(), Vec::<Option<i64>>::new());
}

#[test]
fn runs_are_listed_for_the_jobs_that_are_due() {
    let mut jobs = StrMap::new();
    jobs.insert("a".to_string(), vec![entry("one.sh", false)]);
    jobs.insert("b".to_string(), vec![entry("two.sh", false)]);
    jobs.insert("c".to_string(), vec![entry("three.sh", true), entry("four.sh", false)]);
    let fires = vec![Some(50), Some(150), Some(100)];
    let runs = cron_job_runs(&jobs, &fires, at(100), &context());
    let fired: Vec<(usize, &str)> =
        runs.iter().map(|r| (r.job_index, r.schedule.as_str())).collect();
    assert_eq!(fired, vec![(0, "a"), (2, "c")]);
    assert_eq!(runs[1].scripts[1].script_id, "cron_2_1");
    assert!(!runs[1].scripts[1].apply_updates_after);
    let short = cron_job_runs(&jobs, &vec![Some(0)], at(100), &context());
    assert_eq!(short.len(), 1);
    assert!(cron_job_runs(&jobs, &vec![], at(100), &context()).is_empty());
}
