use uicontrol::process::{
    applescript_pid_query, find_pid_in_process_list, parse_applescript_pid, process_entry_exec,
    process_match_key, ProcessLookupError,
};

const PS: &str = "  101 /usr/sbin/cfprefsd\n  202 /Applications/Google Chrome.app/Contents/MacOS/Google Chrome\n  303 /Applications/Visual Studio Code.app/Contents/MacOS/Electron\n  404 /Applications/WeChat.app/Contents/MacOS/WeChat\n  505 /System/Applications/Notes.app/Contents/MacOS/Notes Helper\n";

#[test]
fn match_key_is_trimmed_stripped_and_lowercase() {
    assert_eq!(process_match_key("  Safari.app ").ok(), Some("safari".to_string()));
    assert_eq!(process_match_key("Google Chrome").ok(), Some("google chrome".to_string()));
    assert!(matches!(process_match_key("  .app "), Err(ProcessLookupError::EmptyAppName)));
    assert!(matches!(process_match_key(""), Err(ProcessLookupError::EmptyAppName)));
}

#[test]
fn process_lines_give_pid_and_executable() {
    assert_eq!(
        process_entry_exec("  202 /Applications/Google Chrome.app/Contents/MacOS/Google Chrome"),
        Some((202, "google chrome".to_string()))
    );
    assert_eq!(process_entry_exec("abc /bin/x"), None);
    assert_eq!(process_entry_exec("   "), None);
}

#[test]
fn pid_lookup_prefers_exact_then_spaceless_then_containing() {
    assert_eq!(find_pid_in_process_list(PS, "google chrome"), Some(202));
    assert_eq!(find_pid_in_process_list(PS, "googlechrome"), Some(202));
    assert_eq!(find_pid_in_process_list(PS, "notes"), Some(505));
    assert_eq!(find_pid_in_process_list(PS, "wechat"), Some(404));
    assert_eq!(find_pid_in_process_list(PS, "photoshop"), None);
}

#[test]
fn applescript_query_escapes_the_name() {
    assert_eq!(
        applescript_pid_query(" Safari.app "),
        Some("tell application \"System Events\" to get unix id of process \"Safari\"".to_string())
    );
    assert_eq!(
        applescript_pid_query("A\"B\\C"),
        Some("tell application \"System Events\" to get unix id of process \"A\\\"B\\\\C\"".to_string())
    );
    assert_eq!(applescript_pid_query(".app"), None);
}

#[test]
fn applescript_pid_output_is_parsed() {
    assert_eq!(parse_applescript_pid(" 4321\n"), Some(4321));
    assert_eq!(parse_applescript_pid("missing value"), None);
}
