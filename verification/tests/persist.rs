use lucky::persist::{state_file_path, state_file_text};

#[test]
fn state_file_lies_in_the_data_directory() {
    assert_eq!(state_file_path("/var/lib/lucky"), "/var/lib/lucky/state.yaml");
}

#[test]
fn state_file_begins_with_a_comment() {
    assert_eq!(
        state_file_text("kv: {}\n"),
        "# The daemon state will be written to this file when the daemon is shutdown\nkv: {}\n"
    );
    assert!(state_file_text("").starts_with("# "));
    assert!(state_file_text("").ends_with('\n'));
}
