use uicontrol::json::JsonValue;
use uicontrol::session::{
    api_message_to_session_message, extract_text_content, sort_summaries, text_less_exec, Session,
    SessionMessage, SessionSummary,
};

fn s(x: &str) -> JsonValue {
    JsonValue::String(x.to_string())
}

fn obj(fields: Vec<(&str, JsonValue)>) -> JsonValue {
    JsonValue::Object(fields.into_iter().map(|(k, v)| (k.to_string(), v)).collect())
}

fn msg(role: &str, content: &str) -> SessionMessage {
    SessionMessage { role: role.to_string(), content: content.to_string(), tool_calls: None, tool_call_id: None }
}

fn summary(id: &str, updated: &str) -> SessionSummary {
    SessionSummary {
        id: id.to_string(),
        title: String::new(),
        created_at: String::new(),
        updated_at: updated.to_string(),
        message_count: 0,
    }
}

#[test]
fn new_session_is_untitled_with_uuid_id() {
    let s = Session::new();
    assert_eq!(s.title, "新会话");
    assert!(s.messages.is_empty());
    assert_eq!(s.id.len(), 36);
    assert_eq!(s.id.as_bytes()[14], b'4');
    assert_eq!(s.created_at, s.updated_at);
    let other = Session::new();
    assert_ne!(s.id, other.id);
}

#[test]
fn first_user_message_names_the_session() {
    let mut s = Session::new();
    s.add_message(msg("system", "系统提示"));
    assert_eq!(s.title, "新会话");
    s.add_message(msg("user", "   "));
    assert_eq!(s.title, "新会话");
    s.add_message(msg("user", "  帮我打开微信  "));
    assert_eq!(s.title, "帮我打开微信");
    s.add_message(msg("user", "另一个任务"));
    assert_eq!(s.title, "帮我打开微信");
    assert_eq!(s.messages.len(), 4);
}

#[test]
fn title_is_cut_to_fifty_characters() {
    let mut s = Session::new();
    let long: String = std::iter::repeat('字').take(60).collect();
    s.add_message(msg("user", &long));
    assert_eq!(s.title.chars().count(), 50);
}

#[test]
fn summary_reports_the_session() {
    let mut s = Session::new();
    s.add_message(msg("user", "hello"));
    let sum = s.summary();
    assert_eq!(sum.id, s.id);
    assert_eq!(sum.title, "hello");
    assert_eq!(sum.message_count, 1);
    assert_eq!(sum.updated_at, s.updated_at);
}

#[test]
fn content_text_joins_items_and_marks_images() {
    let content = JsonValue::Array(vec![
        obj(vec![("type", s("text")), ("text", s("第一行"))]),
        obj(vec![("type", s("image_url")), ("image_url", obj(vec![("url", s("data:x"))]))]),
        obj(vec![("type", s("text")), ("text", s("  "))]),
        obj(vec![("type", s("input_image"))]),
    ]);
    assert_eq!(extract_text_content(Some(&content)), "第一行\n[screenshot]\n[screenshot]");
    assert_eq!(extract_text_content(Some(&s("plain"))), "plain");
    assert_eq!(extract_text_content(Some(&JsonValue::Null)), "");
    assert_eq!(extract_text_content(None), "");
}

#[test]
fn api_message_becomes_stored_message() {
    let call = obj(vec![
        ("id", s("c1")),
        ("type", s("function")),
        ("function", obj(vec![("name", s("click")), ("arguments", s("{}"))])),
    ]);
    let m = obj(vec![
        ("role", s("assistant")),
        ("content", JsonValue::Null),
        ("tool_calls", JsonValue::Array(vec![call])),
    ]);
    let stored = api_message_to_session_message(&m);
    assert_eq!(stored.role, "assistant");
    assert_eq!(stored.content, "");
    let calls = stored.tool_calls.unwrap();
    assert_eq!(calls.len(), 1);
    assert_eq!(calls[0].id, "c1");
    assert_eq!(calls[0].name, "click");
    assert_eq!(calls[0].arguments, "{}");
    assert!(stored.tool_call_id.is_none());
}

#[test]
fn text_order_is_that_of_str_cmp() {
    assert!(text_less_exec("2024-01-01", "2024-01-02"));
    assert!(!text_less_exec("b", "a"));
    assert!(text_less_exec("ab", "abc"));
    assert!(!text_less_exec("abc", "abc"));
}

#[test]
fn session_list_runs_newest_first_and_keeps_ties_in_order() {
    let list = vec![
        summary("a", "2024-01-01T00:00:00Z"),
        summary("b", "2024-03-01T00:00:00Z"),
        summary("c", "2024-02-01T00:00:00Z"),
        summary("d", "2024-03-01T00:00:00Z"),
    ];
    let sorted = sort_summaries(list);
    let ids: Vec<&str> = sorted.iter().map(|x| x.id.as_str()).collect();
    assert_eq!(ids, vec!["b", "d", "c", "a"]);
}
