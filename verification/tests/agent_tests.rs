use uicontrol::json::{JsonNumber, JsonValue};
use uicontrol::screen_agent::{first_agent_next, FirstAgentAction, ScreenAgent};
use uicontrol::screen_agent_v2::{
    action_report, ask_human_question, choose_task_goal, clipboard_report, compose_instruction,
    default_task_goal, describe_task_result, extract_task_complete_summary,
    format_app_list_section, human_reply_result, invalid_arguments_error, is_ask_human, plan_tool,
    reply_outcome, round_instruction, round_limit_reached, should_inject_shortcuts,
    system_prompt_text, task_complete_summary, tool_failure_result, ReplyOutcome, ScreenAgentV2,
    TaskResult, ToolAction, PREAMBLE,
};
use uicontrol::stream::{AssistantMessage, FunctionCall, ToolCall};

fn s(x: &str) -> JsonValue {
    JsonValue::String(x.to_string())
}

fn obj(fields: Vec<(&str, JsonValue)>) -> JsonValue {
    JsonValue::Object(fields.into_iter().map(|(k, v)| (k.to_string(), v)).collect())
}

fn call(name: &str) -> ToolCall {
    ToolCall {
        id: "c".to_string(),
        call_type: "function".to_string(),
        function: FunctionCall { name: name.to_string(), arguments: "{}".to_string() },
    }
}

#[test]
fn round_limit_zero_means_none() {
    assert!(!round_limit_reached(0, 1000));
    assert!(!round_limit_reached(3, 3));
    assert!(round_limit_reached(3, 4));
}

#[test]
fn instruction_differs_after_the_first_round() {
    assert_eq!(round_instruction("打开备忘录", 1), "任务目标：打开备忘录\n\n请分析当前屏幕截图，执行下一步操作。");
    assert_eq!(
        round_instruction("打开备忘录", 2),
        "任务目标：打开备忘录\n\n请分析当前屏幕截图，继续执行下一步操作。如果任务已完成，请调用 task_complete。"
    );
    assert_eq!(compose_instruction("a", Some("b".to_string())), "a\n\nb");
    assert_eq!(compose_instruction("a", None), "a");
}

#[test]
fn shortcuts_are_injected_when_focus_changes() {
    let safari = Some("Safari".to_string());
    let notes = Some("Notes".to_string());
    assert!(should_inject_shortcuts(&safari, &None));
    assert!(should_inject_shortcuts(&safari, &notes));
    assert!(!should_inject_shortcuts(&safari, &safari));
    assert!(!should_inject_shortcuts(&None, &notes));
}

#[test]
fn completion_marker_is_read_from_tool_results() {
    assert_eq!(task_complete_summary("TASK_COMPLETE: 已完成").as_deref(), Some("已完成"));
    assert_eq!(task_complete_summary("done"), None);
    assert_eq!(task_complete_summary("TASK_COMPLETE:x"), None);
}

#[test]
fn completion_summary_is_read_from_reply_text() {
    assert_eq!(extract_task_complete_summary("好的 TASK_COMPLETE:: 全部完成 ").as_deref(), Some("全部完成"));
    assert_eq!(extract_task_complete_summary("TASK_COMPLETE"), None);
    assert_eq!(extract_task_complete_summary("继续"), None);
}

#[test]
fn task_results_are_described() {
    assert_eq!(describe_task_result(TaskResult::Completed("ok".to_string())), "ok");
    assert_eq!(describe_task_result(TaskResult::MaxRoundsReached(20)), "达到最大轮次 20，任务已暂停");
    assert_eq!(describe_task_result(TaskResult::UserInterrupt), "用户中断任务");
    assert!(matches!(ScreenAgentV2::max_rounds_result(7), TaskResult::MaxRoundsReached(7)));
}

#[test]
fn task_goal_is_chosen_from_the_command_line() {
    assert_eq!(choose_task_goal(Some("a".to_string()), Some("b".to_string())), "a");
    assert_eq!(choose_task_goal(None, Some("b".to_string())), "b");
    assert_eq!(choose_task_goal(None, None), default_task_goal());
    assert_eq!(default_task_goal(), "请描述要执行的任务，例如：qcu run \"打开浏览器并访问 example.com\"");
}

#[test]
fn new_task_session_is_titled_with_the_task() {
    let s = ScreenAgentV2::new_task_session("打开浏览器并访问 example.com");
    assert_eq!(s.title, "打开浏览器并访问 example.com");
    assert!(s.messages.is_empty());
}

#[test]
fn tool_calls_are_planned_from_their_arguments() {
    assert!(matches!(plan_tool("click", &obj(vec![])), Ok(ToolAction::Click)));
    match plan_tool("type_text", &obj(vec![("text", s("你好"))])) {
        Ok(ToolAction::TypeText(a)) => assert_eq!(a.text, "你好"),
        _ => panic!("type_text"),
    }
    match plan_tool("type_text", &obj(vec![])) {
        Err(e) => assert_eq!(e.0, "缺少或无效参数: text (string)"),
        _ => panic!("missing text"),
    }
    match plan_tool("hotkey", &obj(vec![("modifiers", JsonValue::Array(vec![s("cmd"), s("shift")])), ("key", s("z"))])) {
        Ok(ToolAction::Hotkey(a)) => {
            assert_eq!(a.modifiers, vec!["cmd", "shift"]);
            assert_eq!(a.key, "z");
        },
        _ => panic!("hotkey"),
    }
    match plan_tool("hotkey", &obj(vec![("modifiers", JsonValue::Array(vec![s("cmd"), JsonValue::Null])), ("key", s("z"))])) {
        Err(e) => assert_eq!(e.0, "参数 modifiers 包含非字符串元素"),
        _ => panic!("bad modifiers"),
    }
    match plan_tool("hotkey", &obj(vec![("key", s("z"))])) {
        Err(e) => assert_eq!(e.0, "缺少或无效参数: modifiers (array)"),
        _ => panic!("no modifiers"),
    }
    match plan_tool("wait", &obj(vec![("seconds", JsonValue::Number(JsonNumber::PosInt(100)))])) {
        Ok(ToolAction::Wait { seconds }) => assert_eq!(seconds, 30),
        _ => panic!("wait"),
    }
    match plan_tool("wait", &obj(vec![])) {
        Ok(ToolAction::Wait { seconds }) => assert_eq!(seconds, 3),
        _ => panic!("wait default"),
    }
    match plan_tool("scroll", &obj(vec![("clicks", JsonValue::Number(JsonNumber::NegInt(-2)))])) {
        Ok(ToolAction::Scroll { direction, clicks }) => {
            assert_eq!(direction, "down");
            assert_eq!(clicks, -2);
        },
        _ => panic!("scroll"),
    }
    match plan_tool("task_complete", &obj(vec![])) {
        Ok(ToolAction::TaskComplete(a)) => assert_eq!(a.summary, "任务完成"),
        _ => panic!("task_complete"),
    }
    match plan_tool("fly", &obj(vec![])) {
        Err(e) => assert_eq!(e.0, "未知工具: fly"),
        _ => panic!("unknown"),
    }
}

#[test]
fn action_reports_name_what_was_done() {
    let open = plan_tool("open_application", &obj(vec![("app_name", s("Safari"))])).ok().unwrap();
    assert_eq!(action_report(&open).as_deref(), Some("已打开应用: Safari"));
    let wait = plan_tool("wait", &obj(vec![("seconds", JsonValue::Number(JsonNumber::PosInt(5)))])).ok().unwrap();
    assert_eq!(action_report(&wait).as_deref(), Some("已等待 5 秒"));
    let done = plan_tool("task_complete", &obj(vec![("summary", s("好了"))])).ok().unwrap();
    assert_eq!(action_report(&done).as_deref(), Some("TASK_COMPLETE: 好了"));
    assert_eq!(action_report(&ToolAction::Click), None);
    assert_eq!(tool_failure_result("boom"), "工具执行失败: boom");
    assert_eq!(invalid_arguments_error("{x"), "工具参数不是合法 JSON: {x");
    assert_eq!(clipboard_report(""), "剪贴板为空");
    assert_eq!(clipboard_report("abc"), "abc");
}

#[test]
fn human_replies_are_reported() {
    assert_eq!(human_reply_result("  好的 \n"), "人类回复：好的");
    assert_eq!(human_reply_result("   "), "人类未提供回复");
    assert_eq!(ask_human_question(Some(&obj(vec![("question", s("密码是？"))]))), "密码是？");
    assert_eq!(ask_human_question(Some(&obj(vec![]))), "需要你的帮助");
    assert_eq!(ask_human_question(None), "需要你的帮助");
}

#[test]
fn replies_decide_what_follows() {
    let with_tools = AssistantMessage { content: None, tool_calls: Some(vec![call("click")]), reasoning_content: None };
    assert!(matches!(reply_outcome(&with_tools), ReplyOutcome::RunTools));
    let done = AssistantMessage { content: Some("TASK_COMPLETE: 好".to_string()), tool_calls: None, reasoning_content: None };
    assert!(matches!(reply_outcome(&done), ReplyOutcome::Completed(ref s) if s == "好"));
    let other = AssistantMessage { content: Some("想一想".to_string()), tool_calls: None, reasoning_content: None };
    assert!(matches!(reply_outcome(&other), ReplyOutcome::NextRound));
    assert!(is_ask_human(&call("ask_human")));
    assert!(!is_ask_human(&call("ask")));
}

#[test]
fn app_sections_and_system_prompt() {
    let apps = vec!["Safari".to_string(), "Notes".to_string()];
    assert_eq!(format_app_list_section("运行中", &apps), "## 运行中\n- Safari\n- Notes");
    assert_eq!(format_app_list_section("运行中", &Vec::new()), "## 运行中\n- （未获取到应用列表）");
    let p = system_prompt_text(&apps, &Vec::new(), Some("  多用快捷键  "));
    let expected = format!(
        "{}\n\n## 系统已安装的应用程序\n- Safari\n- Notes\n\n## 当前正在运行的应用程序\n- （未获取到应用列表）\n\n多用快捷键",
        PREAMBLE
    );
    assert_eq!(p, expected);
    let q = system_prompt_text(&apps, &apps, Some("   "));
    assert!(q.ends_with("## 当前正在运行的应用程序\n- Safari\n- Notes"));
}

#[test]
fn first_agent_prompts_and_report() {
    assert_eq!(ScreenAgent::max_rounds(), 20);
    assert_eq!(ScreenAgent::round_prompt("任务", 1, "x"), "任务目标：任务\n\n请分析当前屏幕截图，执行下一步操作。");
    assert_eq!(
        ScreenAgent::round_prompt("任务", 2, "已打开"),
        "任务目标：任务\n上一轮操作结果：已打开\n\n请分析当前屏幕截图，继续执行下一步操作。如果任务已完成，请调用 task_complete。"
    );
    assert_eq!(ScreenAgent::rounds_exhausted_report("r"), "已达到最大轮次 20，最后回复: r");
}

#[test]
fn first_agent_runs_rounds_until_done_or_out_of_rounds() {
    match first_agent_next("任务", 0, false, "") {
        FirstAgentAction::Round { round, prompt, pause } => {
            assert_eq!(round, 1);
            assert_eq!(prompt, "任务目标：任务\n\n请分析当前屏幕截图，执行下一步操作。");
            assert!(!pause);
        }
        _ => panic!("the first round starts"),
    }
    match first_agent_next("任务", 3, false, "已打开") {
        FirstAgentAction::Round { round, pause, .. } => {
            assert_eq!(round, 4);
            assert!(pause);
        }
        _ => panic!("the next round follows"),
    }
    match first_agent_next("任务", 3, true, "完成了") {
        FirstAgentAction::Finish { result, pause } => {
            assert_eq!(result, "完成了");
            assert!(!pause);
        }
        _ => panic!("a completed task ends"),
    }
    match first_agent_next("任务", 20, false, "r") {
        FirstAgentAction::Finish { result, pause } => {
            assert_eq!(result, "已达到最大轮次 20，最后回复: r");
            assert!(pause);
        }
        _ => panic!("the rounds run out"),
    }
}
