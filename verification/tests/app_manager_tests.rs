use uicontrol::app_manager::{
    focus_next, FocusAction, FocusStep, activate_script_for, close_succeeded, close_target, focus_target, is_focused,
    parse_application_list, parse_running_applications, strip_app_suffix,
};

#[test]
fn application_list_keeps_nonblank_trimmed_lines() {
    assert_eq!(
        parse_application_list("Safari.app\n\n  Notes.app \nUtilities\n"),
        vec!["Safari.app", "Notes.app", "Utilities"]
    );
    assert_eq!(parse_application_list(""), Vec::<String>::new());
}

#[test]
fn running_list_is_split_at_commas() {
    assert_eq!(
        parse_running_applications(" Finder, Safari ,, Notes\n"),
        vec!["Finder", "Safari", "Notes"]
    );
}

#[test]
fn app_suffix_is_stripped_repeatedly() {
    assert_eq!(strip_app_suffix("X.app.app"), "X");
    assert_eq!(strip_app_suffix("Safari"), "Safari");
    assert_eq!(close_target("Notes.app"), "Notes");
    assert_eq!(focus_target("  Safari.app "), "Safari");
}

#[test]
fn closing_counts_a_missing_process_as_success() {
    assert!(close_succeeded(true, Some(0)));
    assert!(close_succeeded(false, Some(1)));
    assert!(!close_succeeded(false, Some(2)));
    assert!(!close_succeeded(false, None));
}

#[test]
fn activation_script_names_the_application() {
    assert_eq!(activate_script_for("Safari"), "tell application \"Safari\" to activate");
}

#[test]
fn focus_check_matches_either_way_ignoring_case() {
    assert!(is_focused("Google Chrome\n", "chrome"));
    assert!(is_focused("Code", "visual studio code"));
    assert!(!is_focused("Finder", "Safari"));
}

#[test]
fn focusing_tries_activate_then_open() {
    assert!(matches!(
        focus_next(&FocusStep::Activated(true), "Notes"),
        FocusAction::CheckFocus { after_open: false }
    ));
    assert!(matches!(focus_next(&FocusStep::CheckedAfterActivate(true), "Notes"), FocusAction::Maximize));
    assert!(matches!(focus_next(&FocusStep::CheckedAfterActivate(false), "Notes"), FocusAction::Open));
    assert!(matches!(
        focus_next(&FocusStep::Opened(true), "Notes"),
        FocusAction::CheckFocus { after_open: true }
    ));
    assert!(matches!(focus_next(&FocusStep::CheckedAfterOpen(true), "Notes"), FocusAction::Maximize));
    match focus_next(&FocusStep::Activated(false), "Notes") {
        FocusAction::Fail(e) => assert_eq!(e, "AppleScript activate 执行失败: Notes"),
        _ => panic!("activate failure ends focusing"),
    }
    match focus_next(&FocusStep::Opened(false), "Notes") {
        FocusAction::Fail(e) => assert_eq!(e, "open -a 执行失败: Notes"),
        _ => panic!("open failure ends focusing"),
    }
    match focus_next(&FocusStep::CheckedAfterOpen(false), "Notes") {
        FocusAction::Fail(e) => assert_eq!(e, "无法聚焦应用 'Notes'，两种方式均失败"),
        _ => panic!("focusing fails after both attempts"),
    }
}
