use uicontrol::json::JsonValue;
use uicontrol::keyboard::{key_from_name, modifier_from_name, modifiers_from_names, KeyName, ModifierKey};
use uicontrol::screen_agent_v2::{action_report, plan_tool};
use uicontrol::accessibility::{reads_children, should_append_windows};
use uicontrol::mouse::scroll_amount;

#[test]
fn scroll_direction_sets_the_sign() {
    assert_eq!(scroll_amount("up", 3), Ok(3));
    assert_eq!(scroll_amount("up", -3), Ok(3));
    assert_eq!(scroll_amount("down", 3), Ok(-3));
    assert_eq!(scroll_amount("left", 3), Err("不支持的滚动方向: left，仅支持 up/down".to_string()));
}

#[test]
fn windows_are_walked_only_when_no_child_is_a_window() {
    let roles = vec![Some("AXMenuBar".to_string()), None];
    assert!(should_append_windows(&roles, 2));
    assert!(!should_append_windows(&roles, 0));
    let with_window = vec![Some("AXWindow".to_string())];
    assert!(!should_append_windows(&with_window, 2));
    assert!(reads_children(0));
    assert!(reads_children(63));
    assert!(!reads_children(64));
}

#[test]
fn key_names_cover_named_keys_function_keys_and_characters() {
    assert!(matches!(key_from_name("Enter"), Ok(KeyName::Enter)));
    assert!(matches!(key_from_name("pagedown"), Ok(KeyName::PageDown)));
    assert!(matches!(key_from_name("F12"), Ok(KeyName::Function(12))));
    assert!(matches!(key_from_name("a"), Ok(KeyName::Character('a'))));
    assert!(matches!(key_from_name("中"), Ok(KeyName::Character('中'))));
    assert_eq!(key_from_name("f13").err(), Some("不支持的按键: f13".to_string()));
    assert_eq!(key_from_name("").err(), Some("不支持的按键: ".to_string()));
}

#[test]
fn modifier_names_have_their_aliases() {
    assert!(matches!(modifier_from_name("cmd"), Ok(ModifierKey::Command)));
    assert!(matches!(modifier_from_name("Command"), Ok(ModifierKey::Command)));
    assert!(matches!(modifier_from_name("ctrl"), Ok(ModifierKey::Control)));
    assert!(matches!(modifier_from_name("option"), Ok(ModifierKey::Option)));
    assert!(matches!(modifier_from_name("alt"), Ok(ModifierKey::Option)));
    let ms = modifiers_from_names(&vec!["cmd".to_string(), "shift".to_string()]).ok().unwrap();
    assert!(matches!(ms.as_slice(), [ModifierKey::Command, ModifierKey::Shift]));
    assert_eq!(
        modifiers_from_names(&vec!["cmd".to_string(), "hyper".to_string(), "meta".to_string()]).err(),
        Some("不支持的修饰键: hyper".to_string())
    );
}

#[test]
fn hotkey_report_lists_modifiers_in_debug_form() {
    let args = JsonValue::Object(vec![
        ("modifiers".to_string(), JsonValue::Array(vec![JsonValue::String("cmd".to_string()), JsonValue::String("shift".to_string())])),
        ("key".to_string(), JsonValue::String("z".to_string())),
    ]);
    let a = plan_tool("hotkey", &args).ok().unwrap();
    assert_eq!(action_report(&a).as_deref(), Some("已执行组合键: [\"cmd\", \"shift\"]+z"));
}
