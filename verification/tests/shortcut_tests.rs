use uicontrol::json::{JsonNumber, JsonValue};
use uicontrol::screen_agent_v2::{build_focused_app_shortcuts_context, format_shortcut_key};
use uicontrol::shortcut::{
    collect_menu_shortcuts, global_modifiers_to_symbols, global_shortcuts_from_preferences,
    modifiers_to_symbols, symbolic_hotkey_name, MenuNode, ShortcutError, ShortcutItem,
};

fn node(title: Option<&str>, cmd: Option<&str>, mods: Option<i64>, children: Vec<MenuNode>) -> MenuNode {
    MenuNode {
        title: title.map(|s| s.to_string()),
        cmd_char: cmd.map(|s| s.to_string()),
        cmd_modifiers: mods,
        children,
    }
}

fn num(v: i64) -> JsonValue {
    if v >= 0 {
        JsonValue::Number(JsonNumber::PosInt(v as u64))
    } else {
        JsonValue::Number(JsonNumber::NegInt(v))
    }
}

fn obj(fields: Vec<(&str, JsonValue)>) -> JsonValue {
    JsonValue::Object(fields.into_iter().map(|(k, v)| (k.to_string(), v)).collect())
}

fn hotkey(enabled: i64, key_code: i64, mask: i64) -> JsonValue {
    obj(vec![
        ("enabled", num(enabled)),
        ("value", obj(vec![("parameters", JsonValue::Array(vec![num(65535), num(key_code), num(mask)]))])),
    ])
}

#[test]
fn menu_modifiers_always_include_command() {
    assert_eq!(modifiers_to_symbols(0), "⌘");
    assert_eq!(modifiers_to_symbols(1), "⌘⇧");
    assert_eq!(modifiers_to_symbols(2), "⌘⌥");
    assert_eq!(modifiers_to_symbols(4), "⌘⌃");
    assert_eq!(modifiers_to_symbols(7), "⌘⇧⌥⌃");
}

#[test]
fn global_modifier_mask_lists_its_keys_in_order() {
    assert_eq!(global_modifiers_to_symbols(0), "");
    assert_eq!(global_modifiers_to_symbols(0x100000), "⌘");
    assert_eq!(global_modifiers_to_symbols(0x120000), "⌘⇧");
    assert_eq!(global_modifiers_to_symbols(0x40000 | 0x80000), "⌥⌃");
    assert_eq!(global_modifiers_to_symbols(0x800000 | 0x10000), "🌐⇪");
}

#[test]
fn hotkey_names_known_and_unknown() {
    assert_eq!(symbolic_hotkey_name(64), "Spotlight");
    assert_eq!(symbolic_hotkey_name(32), "Mission Control");
    assert_eq!(symbolic_hotkey_name(118), "切换到桌面 1");
    assert_eq!(symbolic_hotkey_name(999), "系统快捷键 #999");
    assert_eq!(symbolic_hotkey_name(-3), "系统快捷键 #-3");
}

#[test]
fn menu_tree_gives_shortcuts_with_their_paths() {
    let menus = vec![
        node(Some("文件"), None, None, vec![node(None, None, None, vec![
            node(Some("新建"), Some("N"), Some(0), vec![]),
            node(Some("另存为…"), Some(" S "), Some(1), vec![]),
            node(Some("打印"), Some(""), Some(0), vec![]),
        ])]),
        node(Some("  "), None, None, vec![node(Some("隐藏"), Some("H"), None, vec![])]),
    ];
    let items = collect_menu_shortcuts(&menus);
    assert_eq!(items.len(), 3);
    assert_eq!(items[0].menu_path, "文件 > 新建");
    assert_eq!(items[0].modifiers, "⌘");
    assert_eq!(items[0].key, "N");
    assert_eq!(items[1].menu_path, "文件 > 另存为…");
    assert_eq!(items[1].modifiers, "⌘⇧");
    assert_eq!(items[1].key, "S");
    assert_eq!(items[2].menu_path, "隐藏");
}

#[test]
fn system_hotkeys_are_read_and_ordered_by_id() {
    let prefs = obj(vec![(
        "AppleSymbolicHotKeys",
        obj(vec![
            ("64", hotkey(1, 49, 0x100000)),
            ("32", hotkey(0, 126, 0x40000)),
            ("oops", hotkey(1, 1, 0)),
            ("7", obj(vec![("enabled", num(1))])),
        ]),
    )]);
    let items = global_shortcuts_from_preferences(&prefs).ok().unwrap();
    let ids: Vec<i64> = items.iter().map(|g| g.id).collect();
    assert_eq!(ids, vec![7, 32, 64]);
    assert_eq!(items[0].name, "切换输入法（上一个）");
    assert!(items[0].enabled);
    assert_eq!(items[0].key_code, -1);
    assert_eq!(items[0].modifiers, "");
    assert!(!items[1].enabled);
    assert_eq!(items[1].key_code, 126);
    assert_eq!(items[1].modifiers, "⌃");
    assert_eq!(items[2].name, "Spotlight");
    assert_eq!(items[2].modifiers, "⌘");
    assert_eq!(items[2].key_code, 49);
}

#[test]
fn preferences_without_hotkeys_are_refused() {
    let prefs = obj(vec![("Other", num(1))]);
    assert!(matches!(global_shortcuts_from_preferences(&prefs), Err(ShortcutError::NoSymbolicHotKeys)));
    let prefs2 = obj(vec![("AppleSymbolicHotKeys", num(1))]);
    assert!(matches!(global_shortcuts_from_preferences(&prefs2), Err(ShortcutError::NoSymbolicHotKeys)));
}

#[test]
fn shortcut_keys_are_written_modifiers_first() {
    assert_eq!(format_shortcut_key("⌘⇧", " S "), "⌘⇧S");
    assert_eq!(format_shortcut_key("  ", "F5"), "F5");
}

#[test]
fn shortcut_context_lists_the_shortcuts() {
    let items = vec![ShortcutItem {
        menu_path: "文件 > 新建".to_string(),
        modifiers: "⌘".to_string(),
        key: "N".to_string(),
    }];
    let ctx = build_focused_app_shortcuts_context("Safari", &items);
    assert_eq!(
        ctx,
        "当前聚焦应用: Safari\n该应用可用的菜单栏快捷键:\n- ⌘N: 文件 > 新建\n\n提示：控制应用时，优先使用快捷键而非鼠标点击菜单，这样更快更可靠。"
    );
    let none = build_focused_app_shortcuts_context("Finder", &Vec::new());
    assert_eq!(
        none,
        "当前聚焦应用: Finder\n该应用可用的菜单栏快捷键: （未获取到）\n\n提示：控制应用时，优先使用快捷键而非鼠标点击菜单，这样更快更可靠。"
    );
}
