use lucky::error::{ScriptError, ValidationError};
use lucky::script::{
    bin_dir, exit_result, host_script_path, overlay_strings, script_environment, search_path,
    ExitStatus,
};
use lucky::strmap::StrMap;

fn env(pairs: &[(&str, &str)]) -> StrMap<String> {
    let mut map = StrMap::new();
    for (key, value) in pairs {
        map.insert(key.to_string(), value.to_string());
    }
    map
}

fn pairs(map: &StrMap<String>) -> Vec<(String, String)> {
    (0..map.len()).map(|i| (map.key_at(i).clone(), map.value_at(i).clone())).collect()
}

fn owned(list: &[(&str, &str)]) -> Vec<(String, String)> {
    list.iter().map(|(k, v)| (k.to_string(), v.to_string())).collect()
}

#[test]
fn exit_code_zero_is_success() {
    assert_eq!(exit_result(ExitStatus::Exited(0)), Ok(()));
}

#[test]
fn other_exits_are_failures() {
    assert_eq!(exit_result(ExitStatus::Exited(1)), Err(ScriptError::HostScriptFailed(1)));
    assert_eq!(exit_result(ExitStatus::Exited(255)), Err(ScriptError::HostScriptFailed(255)));
    assert_eq!(exit_result(ExitStatus::Signaled(9)), Err(ScriptError::HostScriptSignaled(9)));
    assert_eq!(exit_result(ExitStatus::Signaled(0)), Err(ScriptError::HostScriptSignaled(0)));
    assert_eq!(exit_result(ExitStatus::Other(0)), Err(ScriptError::HostScriptAbnormal));
    assert_eq!(exit_result(ExitStatus::Undetermined), Err(ScriptError::HostScriptAbnormal));
}

#[test]
fn script_error_messages_name_the_script() {
    assert_eq!(
        ScriptError::HostScriptFailed(3).message("setup.sh"),
        "Host script \"setup.sh\" exited non-zero (3)"
    );
    assert_eq!(
        ScriptError::HostScriptSignaled(15).message("setup.sh"),
        "Host script \"setup.sh\" terminated by signal (15)"
    );
    assert_eq!(ScriptError::HostScriptAbnormal.message("x"), "Host script \"x\" failed");
}

#[test]
fn paths_of_the_charm() {
    assert_eq!(bin_dir("/charm"), "/charm/bin");
    assert_eq!(host_script_path("/charm", "install.sh"), "/charm/host_scripts/install.sh");
}

#[test]
fn search_path_adds_the_charm_and_the_executable() {
    let current = Some("/usr/bin:/bin".to_string());
    let exe = Some("/opt/lucky".to_string());
    assert_eq!(
        search_path(&current, "/charm", &exe).unwrap(),
        "/usr/bin:/bin:/charm/bin:/opt/lucky"
    );
    assert_eq!(search_path(&current, "/charm", &None).unwrap(), "/usr/bin:/bin:/charm/bin");
    assert_eq!(search_path(&None, "/charm", &exe).unwrap(), "/charm/bin");
    assert_eq!(search_path(&Some(String::new()), "/c", &None).unwrap(), ":/c/bin");
}

#[test]
fn search_path_refuses_a_colon_in_an_added_directory() {
    let current = Some("/usr/bin".to_string());
    let refused = search_path(&current, "/ch:arm", &None);
    assert!(matches!(refused, Err(ValidationError::InvalidPath)));
    assert_eq!(refused.unwrap_err().message(), "Path contains invalid character");
    let refused = search_path(&current, "/charm", &Some("/o:pt".to_string()));
    assert!(matches!(refused, Err(ValidationError::InvalidPath)));
    assert_eq!(search_path(&None, "/ch:arm", &None).unwrap(), "/ch:arm/bin");
}

#[test]
fn script_environment_has_the_fixed_variables_first() {
    let built = script_environment("/p", "install_0", "install", &env(&[("JUJU_X", "1")]));
    assert_eq!(
        pairs(&built),
        owned(&[
            ("PATH", "/p"),
            ("LUCKY_CONTEXT", "client"),
            ("LUCKY_SCRIPT_ID", "install_0"),
            ("LUCKY_HOOK", "install"),
            ("JUJU_X", "1"),
        ])
    );
}

#[test]
fn caller_variables_are_laid_over_the_fixed_ones() {
    let built = script_environment(
        "/p",
        "id",
        "hook",
        &env(&[("PATH", "/mine"), ("A", "1"), ("LUCKY_CONTEXT", "daemon")]),
    );
    assert_eq!(
        pairs(&built),
        owned(&[
            ("PATH", "/mine"),
            ("LUCKY_CONTEXT", "daemon"),
            ("LUCKY_SCRIPT_ID", "id"),
            ("LUCKY_HOOK", "hook"),
            ("A", "1"),
        ])
    );
}

#[test]
fn overlay_replaces_and_appends() {
    let mut base = env(&[("A", "1"), ("B", "2")]);
    overlay_strings(&mut base, &env(&[("B", "3"), ("C", "4")]));
    assert_eq!(pairs(&base), owned(&[("A", "1"), ("B", "3"), ("C", "4")]));
    overlay_strings(&mut base, &env(&[]));
    assert_eq!(base.len(), 3);
}
