use uicontrol::json::JsonValue;
use uicontrol::tools::{
    CloseApplicationArgs, CloseApplicationTool, FocusApplicationArgs, FocusApplicationTool,
    HotkeyArgs, HotkeyTool, ListApplicationsArgs, ListApplicationsTool,
    ListRunningApplicationsArgs, ListRunningApplicationsTool, OpenApplicationArgs,
    OpenApplicationTool, PressKeyArgs, PressKeyTool, TaskCompleteArgs, TaskCompleteTool,
    TypeTextArgs, TypeTextTool,
};

fn text<'a>(v: &'a JsonValue, key: &str) -> Option<&'a str> {
    v.get(key).and_then(|x| x.as_str())
}

#[test]
fn tools_describe_themselves() {
    let d = TypeTextTool.definition();
    assert_eq!(TypeTextTool.name(), "type_text");
    assert_eq!(d.name, "type_text");
    assert_eq!(d.description, "模拟键盘输入指定文本");
    assert_eq!(text(&d.parameters, "type"), Some("object"));
    let props = d.parameters.get("properties").unwrap();
    assert_eq!(text(props.get("text").unwrap(), "type"), Some("string"));
    assert_eq!(text(props.get("text").unwrap(), "description"), Some("要输入的文本"));
    let req = d.parameters.get("required").unwrap().as_array().unwrap();
    assert_eq!(req.len(), 1);
    assert_eq!(req[0].as_str(), Some("text"));
}

#[test]
fn hotkey_schema_has_a_list_of_modifiers() {
    let d = HotkeyTool.definition();
    assert_eq!(HotkeyTool.name(), "hotkey");
    let props = d.parameters.get("properties").unwrap();
    let m = props.get("modifiers").unwrap();
    assert_eq!(text(m, "type"), Some("array"));
    assert_eq!(text(m.get("items").unwrap(), "type"), Some("string"));
    assert_eq!(text(props.get("key").unwrap(), "description"), Some("主按键"));
}

#[test]
fn listing_tools_take_no_arguments() {
    let d = ListApplicationsTool.definition();
    assert_eq!(ListApplicationsTool.name(), "list_applications");
    assert_eq!(d.parameters.get("properties").unwrap().as_object().unwrap().len(), 0);
    assert_eq!(d.parameters.get("required").unwrap().as_array().unwrap().len(), 0);
    assert_eq!(ListRunningApplicationsTool.name(), "list_running_applications");
    assert_eq!(ListRunningApplicationsTool.definition().description, "列出当前正在运行的应用程序");
}

#[test]
fn tool_replies_name_what_was_done() {
    let r = TypeTextTool.call(&TypeTextArgs { text: "hi".to_string() }, Ok(())).ok().unwrap();
    assert_eq!(r, "已输入文本: hi");
    let e = TypeTextTool.call(&TypeTextArgs { text: "hi".to_string() }, Err("键盘不可用".to_string()));
    assert_eq!(e.err().unwrap().0, "键盘不可用");
    assert_eq!(PressKeyTool.call(&PressKeyArgs { key: "enter".to_string() }, Ok(())).ok().unwrap(), "已按下按键: enter");
    let h = HotkeyArgs { modifiers: vec!["cmd".to_string(), "shift".to_string()], key: "z".to_string() };
    assert_eq!(HotkeyTool.call(&h, Ok(())).ok().unwrap(), "已执行组合键: cmd+shift + z");
    assert_eq!(
        OpenApplicationTool.call(&OpenApplicationArgs { app_name: "Safari".to_string() }, Ok(())).ok().unwrap(),
        "已打开应用: Safari"
    );
    assert_eq!(
        CloseApplicationTool.call(&CloseApplicationArgs { app_name: "Safari".to_string() }, Ok(())).ok().unwrap(),
        "已关闭应用: Safari"
    );
    assert_eq!(
        FocusApplicationTool.call(&FocusApplicationArgs { app_name: "Notes".to_string() }, Ok(())).ok().unwrap(),
        "已聚焦应用: Notes"
    );
}

#[test]
fn listing_replies_are_json_arrays() {
    let apps = vec!["Safari.app".to_string(), "Say \"hi\".app".to_string()];
    let r = ListApplicationsTool.call(&ListApplicationsArgs {}, Ok(apps)).ok().unwrap();
    assert_eq!(r, "[\"Safari.app\",\"Say \\\"hi\\\".app\"]");
    let r2 = ListRunningApplicationsTool.call(&ListRunningApplicationsArgs {}, Ok(Vec::new())).ok().unwrap();
    assert_eq!(r2, "[]");
    let e = ListApplicationsTool.call(&ListApplicationsArgs {}, Err("ls 失败".to_string()));
    assert_eq!(e.err().unwrap().0, "ls 失败");
}

#[test]
fn listing_replies_escape_control_characters() {
    let apps = vec!["a\\b".to_string(), "tab\there".to_string(), "bell\u{7}".to_string(), "é\n".to_string()];
    let r = ListRunningApplicationsTool.call(&ListRunningApplicationsArgs {}, Ok(apps)).ok().unwrap();
    assert_eq!(r, "[\"a\\\\b\",\"tab\\there\",\"bell\\u0007\",\"é\\n\"]");
}

#[test]
fn task_complete_marks_the_task_done() {
    let mut t = TaskCompleteTool { completed: false };
    let r = t.call(&TaskCompleteArgs { summary: "好了".to_string() }).ok().unwrap();
    assert_eq!(r, "任务已完成: 好了");
    assert!(t.completed);
    assert_eq!(t.name(), "task_complete");
}

#[test]
fn agent_tool_catalog_lists_every_tool_in_order() {
    let v = uicontrol::tool_catalog::tools_definition();
    let items = v.as_array().unwrap();
    let names: Vec<&str> = items
        .iter()
        .map(|t| t.get("function").unwrap().get("name").unwrap().as_str().unwrap())
        .collect();
    assert_eq!(
        names,
        vec![
            "click", "right_click", "double_click", "hover", "page_down", "page_up", "scroll", "drag",
            "type_text", "press_key", "hotkey", "open_application", "close_application",
            "focus_application", "wait", "ask_human", "task_complete", "read_clipboard",
        ]
    );
    for t in items {
        assert_eq!(text(t, "type"), Some("function"));
    }
    let scroll = items[6].get("function").unwrap().get("parameters").unwrap();
    let req: Vec<&str> = scroll.get("required").unwrap().as_array().unwrap().iter().map(|x| x.as_str().unwrap()).collect();
    assert_eq!(req, vec!["x", "y", "direction"]);
    let clicks = scroll.get("properties").unwrap().get("clicks").unwrap();
    assert_eq!(text(clicks, "type"), Some("integer"));
    let hotkey = items[10].get("function").unwrap().get("parameters").unwrap();
    let mods = hotkey.get("properties").unwrap().get("modifiers").unwrap();
    assert_eq!(text(mods.get("items").unwrap(), "type"), Some("string"));
    let clip = items[17].get("function").unwrap().get("parameters").unwrap();
    assert_eq!(clip.get("properties").unwrap().as_object().unwrap().len(), 0);
}

#[test]
fn offered_tools_and_known_tools_agree() {
    let v = uicontrol::tool_catalog::tools_definition();
    let names: Vec<String> = v
        .as_array()
        .unwrap()
        .iter()
        .map(|t| t.get("function").unwrap().get("name").unwrap().as_str().unwrap().to_string())
        .collect();
    let empty = JsonValue::Object(Vec::new());
    for name in &names {
        if let Err(e) = uicontrol::screen_agent_v2::plan_tool(name, &empty) {
            assert!(!e.0.starts_with("未知工具"), "{} is refused as unknown", name);
        }
    }
    assert!(uicontrol::screen_agent_v2::plan_tool("fly", &empty).is_err());
    assert!(!names.iter().any(|n| n == "fly"));
}
