use uicontrol::json::JsonValue;
use uicontrol::screen_agent_v2::TaskResult;
use uicontrol::session::Session;
use uicontrol::shortcut::ShortcutItem;
use uicontrol::stream::{AssistantMessage, FunctionCall, ToolCall};
use uicontrol::task_loop::{Phase, TaskAction, TaskEvent, TaskRun};

fn run(max_rounds: usize) -> TaskRun {
    TaskRun::new("打开备忘录".to_string(), max_rounds, Vec::new(), Session::new(), "系统提示")
}

fn captured(app: Option<&str>, unchanged: bool) -> TaskEvent {
    TaskEvent::Captured {
        screenshot_base64: "QUJD".to_string(),
        unchanged,
        focused_app: app.map(|s| s.to_string()),
    }
}

fn call(id: &str, name: &str, args: &str) -> ToolCall {
    ToolCall {
        id: id.to_string(),
        call_type: "function".to_string(),
        function: FunctionCall { name: name.to_string(), arguments: args.to_string() },
    }
}

fn reply_with(calls: Vec<ToolCall>) -> TaskEvent {
    let n = calls.len();
    TaskEvent::Reply {
        message: AssistantMessage { content: None, tool_calls: Some(calls), reasoning_content: None },
        arguments: (0..n).map(|_| Some(JsonValue::Object(Vec::new()))).collect(),
    }
}

fn step(t: &mut TaskRun, e: TaskEvent) -> TaskAction {
    assert!(t.expects_event(&e));
    t.step(e)
}

#[test]
fn new_task_starts_with_the_system_prompt() {
    let t = run(5);
    assert_eq!(t.messages.len(), 1);
    assert_eq!(t.messages[0].get("role").and_then(|v| v.as_str()), Some("system"));
    assert_eq!(t.session.messages.len(), 1);
    assert_eq!(t.round, 1);
    assert!(matches!(t.phase, Phase::RoundStart));
}

#[test]
fn a_round_captures_asks_and_runs_tools() {
    let mut t = run(5);
    assert!(matches!(step(&mut t, TaskEvent::Proceed), TaskAction::Capture));
    match step(&mut t, captured(Some("Notes"), false)) {
        TaskAction::ReadShortcuts(app) => assert_eq!(app, "Notes"),
        _ => panic!("shortcuts first"),
    }
    let items = vec![ShortcutItem { menu_path: "文件 > 新建".to_string(), modifiers: "⌘".to_string(), key: "N".to_string() }];
    assert!(matches!(step(&mut t, TaskEvent::Shortcuts(Some(items))), TaskAction::Request));
    assert_eq!(t.messages.len(), 2);
    let text = t.messages[1].get("content").unwrap().as_array().unwrap()[0].get("text").unwrap().as_str().unwrap().to_string();
    assert!(text.starts_with("任务目标：打开备忘录\n\n请分析当前屏幕截图，执行下一步操作。\n\n当前聚焦应用: Notes"));
    assert_eq!(t.session.title.chars().count(), 50);
    assert!(t.session.title.starts_with("任务目标：打开备忘录"));
    assert!(matches!(step(&mut t, reply_with(vec![call("c1", "click", "{}"), call("c2", "wait", "{}")])), TaskAction::NextCall { pause: false }));
    match step(&mut t, TaskEvent::Proceed) {
        TaskAction::RunTool { name, arguments_text, arguments } => {
            assert_eq!(name, "click");
            assert_eq!(arguments_text, "{}");
            assert!(arguments.is_some());
        },
        _ => panic!("run click"),
    }
    assert!(matches!(step(&mut t, TaskEvent::ToolDone(Ok("已点击".to_string()))), TaskAction::NextCall { pause: true }));
    assert!(matches!(step(&mut t, TaskEvent::Proceed), TaskAction::RunTool { .. }));
    assert!(matches!(step(&mut t, TaskEvent::ToolDone(Err("超时".to_string()))), TaskAction::NextCall { pause: false }));
    assert_eq!(t.messages.last().unwrap().get("content").and_then(|v| v.as_str()), Some("工具执行失败: 超时"));
    assert!(matches!(step(&mut t, TaskEvent::Proceed), TaskAction::EndRound));
    assert_eq!(t.round, 2);
    assert!(matches!(t.phase, Phase::RoundStart));
}

#[test]
fn same_focused_app_skips_shortcuts_and_unchanged_screen_sends_hint() {
    let mut t = run(0);
    step(&mut t, TaskEvent::Proceed);
    assert!(matches!(step(&mut t, captured(None, true)), TaskAction::Request));
    let items = t.messages[1].get("content").unwrap().as_array().unwrap();
    assert_eq!(items[1].get("type").and_then(|v| v.as_str()), Some("text"));
}

#[test]
fn round_limit_pauses_the_task() {
    let mut t = run(1);
    step(&mut t, TaskEvent::Proceed);
    step(&mut t, captured(None, false));
    let ev = TaskEvent::ApiError { status: "500 Internal Server Error".to_string(), body: "oops".to_string() };
    assert!(matches!(step(&mut t, ev), TaskAction::EndRound));
    assert_eq!(t.final_result, "API 错误 (500 Internal Server Error): oops");
    match step(&mut t, TaskEvent::Proceed) {
        TaskAction::Finish { result: TaskResult::MaxRoundsReached(n), notice } => {
            assert_eq!(n, 1);
            assert_eq!(notice.title, "⚠️ 已达到最大轮次");
            assert_eq!(notice.body, "已执行 1 轮，任务暂停并返回 REPL");
        },
        _ => panic!("limit"),
    }
    assert!(matches!(t.phase, Phase::Finished));
    assert!(!t.expects_event(&TaskEvent::Proceed));
}

#[test]
fn completion_marker_from_a_tool_ends_the_task() {
    let mut t = run(5);
    step(&mut t, TaskEvent::Proceed);
    step(&mut t, captured(None, false));
    step(&mut t, reply_with(vec![call("c1", "task_complete", "{}"), call("c2", "click", "{}")]));
    step(&mut t, TaskEvent::Proceed);
    match step(&mut t, TaskEvent::ToolDone(Ok("TASK_COMPLETE: 备忘录已打开".to_string()))) {
        TaskAction::Finish { result: TaskResult::Completed(s), notice } => {
            assert_eq!(s, "备忘录已打开");
            assert_eq!(notice.title, "✅ 任务已完成");
        },
        _ => panic!("complete"),
    }
    assert_eq!(t.final_result, "备忘录已打开");
}

#[test]
fn ask_human_pauses_with_the_question() {
    let mut t = run(5);
    step(&mut t, TaskEvent::Proceed);
    step(&mut t, captured(None, false));
    let ev = TaskEvent::Reply {
        message: AssistantMessage { content: Some("需要帮助".to_string()), tool_calls: Some(vec![call("h1", "ask_human", "{\"question\":\"验证码？\"}")]), reasoning_content: None },
        arguments: vec![Some(JsonValue::Object(vec![("question".to_string(), JsonValue::String("验证码？".to_string()))]))],
    };
    step(&mut t, ev);
    match step(&mut t, TaskEvent::Proceed) {
        TaskAction::Finish { result: TaskResult::UserInterrupt, notice } => assert_eq!(notice.body, "验证码？"),
        _ => panic!("ask"),
    }
    let last = t.messages.last().unwrap();
    assert_eq!(last.get("content").and_then(|v| v.as_str()), Some("ASK_HUMAN: 验证码？"));
    assert_eq!(last.get("tool_call_id").and_then(|v| v.as_str()), Some("h1"));
}

#[test]
fn text_reply_with_marker_completes_and_other_text_ends_the_round() {
    let mut t = run(5);
    step(&mut t, TaskEvent::Proceed);
    step(&mut t, captured(None, false));
    let plain = TaskEvent::Reply {
        message: AssistantMessage { content: Some("我在思考".to_string()), tool_calls: None, reasoning_content: None },
        arguments: Vec::new(),
    };
    assert!(matches!(step(&mut t, plain), TaskAction::EndRound));
    assert_eq!(t.final_result, "我在思考");
    step(&mut t, TaskEvent::Proceed);
    step(&mut t, captured(None, false));
    let done = TaskEvent::Reply {
        message: AssistantMessage { content: Some("TASK_COMPLETE: 完成了".to_string()), tool_calls: None, reasoning_content: None },
        arguments: Vec::new(),
    };
    match step(&mut t, done) {
        TaskAction::Finish { result: TaskResult::Completed(s), .. } => assert_eq!(s, "完成了"),
        _ => panic!("done"),
    }
    assert_eq!(t.final_result, "TASK_COMPLETE: 完成了");
}

#[test]
fn log_keeps_pace_with_the_conversation_over_a_run() {
    let mut t = run(5);
    let m0 = t.messages.len();
    let s0 = t.session.messages.len();
    step(&mut t, TaskEvent::Proceed);
    step(&mut t, captured(Some("Notes"), false));
    step(&mut t, TaskEvent::Shortcuts(None));
    step(&mut t, reply_with(vec![call("c1", "type_text", "{\"text\":\"hi\"}")]));
    step(&mut t, TaskEvent::Proceed);
    step(&mut t, TaskEvent::ToolDone(Ok("已输入".to_string())));
    step(&mut t, TaskEvent::Proceed);
    let added = t.messages.len() - m0;
    assert_eq!(added, 3);
    assert_eq!(t.session.messages.len() - s0, added);
    let roles: Vec<&str> = t.session.messages[s0..].iter().map(|m| m.role.as_str()).collect();
    assert_eq!(roles, vec!["user", "assistant", "tool"]);
    for (m, s) in t.messages[m0..].iter().zip(t.session.messages[s0..].iter()) {
        assert_eq!(m.get("role").and_then(|v| v.as_str()), Some(s.role.as_str()));
    }
    assert_eq!(t.session.messages[s0 + 2].tool_call_id.as_deref(), Some("c1"));
    assert_eq!(t.session.messages[s0 + 2].content, "已输入");
}
