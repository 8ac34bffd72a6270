use uicontrol::conversation::{
    append_message, assistant_message, assistant_tool_calls_message, system_message, tool_message,
    user_message, vision_request,
};
use uicontrol::json::JsonValue;
use uicontrol::screen_agent_v2::SCREEN_UNCHANGED_HINT;
use uicontrol::session::Session;
use uicontrol::stream::{FunctionCall, ToolCall};

fn text_of<'a>(v: &'a JsonValue, key: &str) -> Option<&'a str> {
    v.get(key).and_then(|x| x.as_str())
}

#[test]
fn user_message_carries_instruction_and_screenshot() {
    let m = user_message("打开浏览器", Some("QUJD"));
    assert_eq!(text_of(&m, "role"), Some("user"));
    let items = m.get("content").unwrap().as_array().unwrap();
    assert_eq!(items.len(), 2);
    assert_eq!(text_of(&items[0], "type"), Some("text"));
    assert_eq!(text_of(&items[0], "text"), Some("打开浏览器"));
    assert_eq!(text_of(&items[1], "type"), Some("image_url"));
    let url = items[1].get("image_url").unwrap();
    assert_eq!(text_of(url, "url"), Some("data:image/png;base64,QUJD"));
}

#[test]
fn user_message_without_screenshot_carries_the_hint() {
    let m = user_message("继续", None);
    let items = m.get("content").unwrap().as_array().unwrap();
    assert_eq!(text_of(&items[1], "type"), Some("text"));
    assert_eq!(text_of(&items[1], "text"), Some(SCREEN_UNCHANGED_HINT));
}

#[test]
fn simple_messages_have_role_and_content() {
    let s = system_message("提示");
    assert_eq!(text_of(&s, "role"), Some("system"));
    assert_eq!(text_of(&s, "content"), Some("提示"));
    let t = tool_message("call_1", "ok");
    assert_eq!(text_of(&t, "role"), Some("tool"));
    assert_eq!(text_of(&t, "tool_call_id"), Some("call_1"));
    assert_eq!(text_of(&t, "content"), Some("ok"));
    let a = assistant_message(None);
    assert_eq!(text_of(&a, "role"), Some("assistant"));
    assert!(matches!(a.get("content"), Some(JsonValue::Null)));
    let b = assistant_message(Some("hi".to_string()));
    assert_eq!(text_of(&b, "content"), Some("hi"));
}

#[test]
fn assistant_tool_calls_message_lists_each_call() {
    let calls = vec![ToolCall {
        id: "c1".to_string(),
        call_type: "function".to_string(),
        function: FunctionCall { name: "click".to_string(), arguments: "{\"x\":1}".to_string() },
    }];
    let m = assistant_tool_calls_message(None, &calls);
    assert!(matches!(m.get("content"), Some(JsonValue::Null)));
    let items = m.get("tool_calls").unwrap().as_array().unwrap();
    assert_eq!(items.len(), 1);
    assert_eq!(text_of(&items[0], "id"), Some("c1"));
    assert_eq!(text_of(&items[0], "type"), Some("function"));
    let f = items[0].get("function").unwrap();
    assert_eq!(text_of(f, "name"), Some("click"));
    assert_eq!(text_of(f, "arguments"), Some("{\"x\":1}"));
}

#[test]
fn log_keeps_a_marker_instead_of_the_screenshot() {
    let mut messages = Vec::new();
    let mut session = Session::new();
    append_message(&mut messages, &mut session, user_message("打开 Safari 浏览器", Some("QUJD")));
    assert_eq!(messages.len(), 1);
    assert_eq!(session.messages.len(), 1);
    assert_eq!(session.messages[0].role, "user");
    assert_eq!(session.messages[0].content, "打开 Safari 浏览器\n[screenshot]");
    assert_eq!(session.title, "打开 Safari 浏览器\n[screenshot]");
    append_message(&mut messages, &mut session, user_message("第二条", None));
    assert_eq!(session.messages[1].content, format!("第二条\n{}", SCREEN_UNCHANGED_HINT));
    assert_eq!(session.title, "打开 Safari 浏览器\n[screenshot]");
}

#[test]
fn log_keeps_tool_answers_whole() {
    let mut messages = Vec::new();
    let mut session = Session::new();
    append_message(&mut messages, &mut session, tool_message("call_9", "已点击"));
    assert_eq!(session.messages[0].role, "tool");
    assert_eq!(session.messages[0].content, "已点击");
    assert_eq!(session.messages[0].tool_call_id.as_deref(), Some("call_9"));
    assert!(session.messages[0].tool_calls.is_none());
}

#[test]
fn vision_request_asks_for_the_image_and_prompt() {
    let r = vision_request("qwen-vl", "data:image/png;base64,AA", "转成 markdown");
    assert_eq!(text_of(&r, "model"), Some("qwen-vl"));
    let msgs = r.get("messages").unwrap().as_array().unwrap();
    assert_eq!(msgs.len(), 1);
    assert_eq!(text_of(&msgs[0], "role"), Some("user"));
}
