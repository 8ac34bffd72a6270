//! The decisions of the screen-control agent's task loop: when to stop,
//! what to tell the model each round, which messages go into the
//! conversation, what a tool call asks for, and how the task ends.
use vstd::prelude::*;
use crate::json::{
    as_array_spec, as_i64_spec, as_str_spec, as_u64_spec, get_spec, get_str, to_owned_string,
    JsonNumber, JsonValue,
};
use crate::session::{api_message_to_session_message, Session, untitled};
use crate::shortcut::ShortcutItem;
use crate::tools::{
    CloseApplicationArgs, FocusApplicationArgs, HotkeyArgs, OpenApplicationArgs, PressKeyArgs,
    TaskCompleteArgs, ToolError, TypeTextArgs,
};
use crate::stream::{call_views, finalized, opt_view, AssistantMessage, ToolCall};
use crate::text::{
    concat2, concat3, contains_seq, decimal, find_seq, is_blank, is_blank_str, join_strings,
    join_with, starts_with_seq, string_views, take_chars, take_chars_string, trim, trim_string,
    u64_to_decimal,
};

verus! {

/// How a task ended.
pub enum TaskResult {
    /// The model reported the task done, with a summary.
    Completed(String),
    /// The round limit (the number given) was reached.
    MaxRoundsReached(u32),
    /// The model asked the human for help.
    UserInterrupt,
}

/// The agent that works on a task by looking at the screen and using tools.
pub struct ScreenAgentV2;

/// The task used when none is given on the command line.
pub fn default_task_goal() -> (s: String)
    ensures
        s@ == "请描述要执行的任务，例如：qcu run \"打开浏览器并访问 example.com\""@,
{
    String::from_str("请描述要执行的任务，例如：qcu run \"打开浏览器并访问 example.com\"")
}

/// The text that a finished task reports.
pub open spec fn task_result_text(r: TaskResult) -> Seq<char> {
    match r {
        TaskResult::Completed(s) => s@,
        TaskResult::MaxRoundsReached(n) => "达到最大轮次 "@ + decimal(n as nat) + "，任务已暂停"@,
        TaskResult::UserInterrupt => "用户中断任务"@,
    }
}

/// The text that a finished task reports.
pub fn describe_task_result(r: TaskResult) -> (s: String)
    ensures
        s@ == task_result_text(r),
{
    match r {
        TaskResult::Completed(s) => s,
        TaskResult::MaxRoundsReached(n) => {
            let d = u64_to_decimal(n as u64);
            concat3("达到最大轮次 ", d.as_str(), "，任务已暂停")
        },
        TaskResult::UserInterrupt => String::from_str("用户中断任务"),
    }
}

impl ScreenAgentV2 {
    /// The conversation of a new task: a fresh session titled with the
    /// first 50 characters of the task.
    pub fn new_task_session(task_goal: &str) -> (s: Session)
        ensures
            s.title@ == take_chars(task_goal@, 50),
            s.messages@.len() == 0,
            s.created_at@ == s.updated_at@,
    {
        let mut s = Session::new();
        s.title = take_chars_string(task_goal, 50);
        s
    }

    /// The result when the round limit is reached: the limit, cut to `u32`.
    pub fn max_rounds_result(max_rounds: usize) -> (r: TaskResult)
        ensures
            r == TaskResult::MaxRoundsReached(max_rounds as u32),
    {
        TaskResult::MaxRoundsReached(max_rounds as u32)
    }
}

/// Round `round` (counted from 1) is past the limit; a limit of 0 means
/// there is none.
pub open spec fn past_limit(max_rounds: nat, round: nat) -> bool {
    max_rounds > 0 && round > max_rounds
}

/// Whether round `round` is past the limit `max_rounds`.
pub fn round_limit_reached(max_rounds: usize, round: usize) -> (b: bool)
    ensures
        b == past_limit(max_rounds as nat, round as nat),
{
    max_rounds > 0 && round > max_rounds
}

/// What the model is told at the start of round `round`.
pub open spec fn round_instruction_text(task_goal: Seq<char>, round: nat) -> Seq<char> {
    if round == 1 {
        "任务目标："@ + task_goal + "\n\n请分析当前屏幕截图，执行下一步操作。"@
    } else {
        "任务目标："@ + task_goal
            + "\n\n请分析当前屏幕截图，继续执行下一步操作。如果任务已完成，请调用 task_complete。"@
    }
}

/// What the model is told at the start of round `round`.
pub fn round_instruction(task_goal: &str, round: usize) -> (s: String)
    ensures
        s@ == round_instruction_text(task_goal@, round as nat),
{
    if round == 1 {
        concat3("任务目标：", task_goal, "\n\n请分析当前屏幕截图，执行下一步操作。")
    } else {
        concat3(
            "任务目标：",
            task_goal,
            "\n\n请分析当前屏幕截图，继续执行下一步操作。如果任务已完成，请调用 task_complete。",
        )
    }
}

/// The focused application's shortcuts are told to the model when an
/// application is focused and it is not the one focused in the round before.
pub open spec fn inject_shortcuts(focused: Option<Seq<char>>, last: Option<Seq<char>>) -> bool {
    match focused {
        Some(f) => match last {
            None => true,
            Some(l) => l != f,
        },
        None => false,
    }
}

/// Whether the focused application's shortcuts are told to the model.
pub fn should_inject_shortcuts(focused: &Option<String>, last: &Option<String>) -> (b: bool)
    ensures
        b == inject_shortcuts(opt_view(*focused), opt_view(*last)),
{
    match focused {
        Some(f) => match last {
            None => true,
            Some(l) => !(*l == *f),
        },
        None => false,
    }
}

/// The round's instruction followed, where there is one, by the shortcut
/// context after an empty line.
pub open spec fn composed_instruction(instruction: Seq<char>, context: Option<Seq<char>>) -> Seq<
    char,
> {
    match context {
        Some(c) => instruction + "\n\n"@ + c,
        None => instruction,
    }
}

/// The round's instruction with the shortcut context, where there is one.
pub fn compose_instruction(instruction: &str, context: Option<String>) -> (s: String)
    ensures
        s@ == composed_instruction(instruction@, opt_view(context)),
{
    match context {
        Some(c) => concat3(instruction, "\n\n", c.as_str()),
        None => String::from_str(instruction),
    }
}

/// How a menu shortcut is written for the model: the trimmed modifiers (if
/// any) directly followed by the trimmed key.
pub open spec fn shortcut_key_text(modifiers: Seq<char>, key: Seq<char>) -> Seq<char> {
    if is_blank(modifiers) {
        trim(key)
    } else {
        trim(modifiers) + trim(key)
    }
}

/// How a menu shortcut is written for the model.
pub fn format_shortcut_key(modifiers: &str, key: &str) -> (s: String)
    ensures
        s@ == shortcut_key_text(modifiers@, key@),
{
    let k = trim_string(key);
    if is_blank_str(modifiers) {
        k
    } else {
        let m = trim_string(modifiers);
        concat2(m.as_str(), k.as_str())
    }
}

/// The line that lists one menu shortcut.
pub open spec fn shortcut_line(item: ShortcutItem) -> Seq<char> {
    "- "@ + shortcut_key_text(item.modifiers@, item.key@) + ": "@ + item.menu_path@
}

/// The lines that list the menu shortcuts, in order.
pub open spec fn shortcut_lines(items: Seq<ShortcutItem>) -> Seq<Seq<char>>
    decreases items.len(),
{
    if items.len() == 0 {
        Seq::empty()
    } else {
        shortcut_lines(items.drop_last()).push(shortcut_line(items.last()))
    }
}

/// What the model is told about the focused application: its name, its
/// menu shortcuts (or that none were found), an empty line and a hint to
/// prefer shortcuts, one per line.
pub open spec fn shortcuts_context(app_name: Seq<char>, items: Seq<ShortcutItem>) -> Seq<char> {
    let head = seq!["当前聚焦应用: "@ + app_name];
    let body = if items.len() == 0 {
        seq!["该应用可用的菜单栏快捷键: （未获取到）"@]
    } else {
        seq!["该应用可用的菜单栏快捷键:"@] + shortcut_lines(items)
    };
    join_with(
        head + body + seq![Seq::empty(), "提示：控制应用时，优先使用快捷键而非鼠标点击菜单，这样更快更可靠。"@],
        "\n"@,
    )
}

/// What the model is told about the focused application and its menu
/// shortcuts.
pub fn build_focused_app_shortcuts_context(app_name: &str, shortcuts: &Vec<ShortcutItem>) -> (s:
    String)
    ensures
        s@ == shortcuts_context(app_name@, shortcuts@),
{
    let mut lines: Vec<String> = Vec::new();
    let head = concat2("当前聚焦应用: ", app_name);
    lines.push(head);
    assert(string_views(lines@) =~= seq!["当前聚焦应用: "@ + app_name@]);
    let ghost body: Seq<Seq<char>> = if shortcuts@.len() == 0 {
        seq!["该应用可用的菜单栏快捷键: （未获取到）"@]
    } else {
        seq!["该应用可用的菜单栏快捷键:"@] + shortcut_lines(shortcuts@)
    };
    let n = shortcuts.len();
    if n == 0 {
        let l = String::from_str("该应用可用的菜单栏快捷键: （未获取到）");
        let ghost before = string_views(lines@);
        lines.push(l);
        assert(string_views(lines@) =~= before.push(l@));
    } else {
        let l = String::from_str("该应用可用的菜单栏快捷键:");
        let ghost before = string_views(lines@);
        lines.push(l);
        assert(string_views(lines@) =~= before.push(l@));
        let ghost start = string_views(lines@);
        assert(start + shortcut_lines(shortcuts@.take(0)) =~= start);
        for i in 0..n
            invariant
                n == shortcuts@.len(),
                string_views(lines@) == start + shortcut_lines(shortcuts@.take(i as int)),
        {
            assert(shortcuts@.take(i + 1).drop_last() =~= shortcuts@.take(i as int));
            let item = &shortcuts[i];
            let key = format_shortcut_key(item.modifiers.as_str(), item.key.as_str());
            let a = concat3("- ", key.as_str(), ": ");
            let line = concat2(a.as_str(), item.menu_path.as_str());
            let ghost before = string_views(lines@);
            lines.push(line);
            assert(string_views(lines@) =~= before.push(line@));
            assert(shortcut_lines(shortcuts@.take(i + 1)) == shortcut_lines(
                shortcuts@.take(i as int),
            ).push(shortcut_line(shortcuts@[i as int])));
            assert(string_views(lines@) =~= start + shortcut_lines(shortcuts@.take(i + 1)));
        }
        assert(shortcuts@.take(n as int) =~= shortcuts@);
    }
    assert(string_views(lines@) =~= seq!["当前聚焦应用: "@ + app_name@] + body);
    let e = String::new();
    let ghost b1 = string_views(lines@);
    lines.push(e);
    assert(string_views(lines@) =~= b1.push(Seq::empty()));
    let tip = String::from_str("提示：控制应用时，优先使用快捷键而非鼠标点击菜单，这样更快更可靠。");
    let ghost b2 = string_views(lines@);
    lines.push(tip);
    assert(string_views(lines@) =~= b2.push(tip@));
    assert(string_views(lines@) =~= seq!["当前聚焦应用: "@ + app_name@] + body + seq![
        Seq::empty(),
        "提示：控制应用时，优先使用快捷键而非鼠标点击菜单，这样更快更可靠。"@,
    ]);
    join_strings(&lines, "\n")
}

/// The lines that list applications, in order.
pub open spec fn app_lines(apps: Seq<String>) -> Seq<Seq<char>>
    decreases apps.len(),
{
    if apps.len() == 0 {
        Seq::empty()
    } else {
        app_lines(apps.drop_last()).push("- "@ + apps.last()@)
    }
}

/// A section of the system prompt that lists applications under a title,
/// or says that the list could not be read.
pub open spec fn app_list_section(title: Seq<char>, apps: Seq<String>) -> Seq<char> {
    if apps.len() == 0 {
        "## "@ + title + "\n- （未获取到应用列表）"@
    } else {
        "## "@ + title + "\n"@ + join_with(app_lines(apps), "\n"@)
    }
}

/// A section of the system prompt that lists applications.
pub fn format_app_list_section(title: &str, apps: &Vec<String>) -> (s: String)
    ensures
        s@ == app_list_section(title@, apps@),
{
    if apps.len() == 0 {
        return concat3("## ", title, "\n- （未获取到应用列表）");
    }
    let mut lines: Vec<String> = Vec::new();
    let n = apps.len();
    for i in 0..n
        invariant
            n == apps@.len(),
            string_views(lines@) == app_lines(apps@.take(i as int)),
    {
        assert(apps@.take(i + 1).drop_last() =~= apps@.take(i as int));
        let line = concat2("- ", apps[i].as_str());
        let ghost before = string_views(lines@);
        lines.push(line);
        assert(string_views(lines@) =~= before.push(line@));
    }
    assert(apps@.take(n as int) =~= apps@);
    let items = join_strings(&lines, "\n");
    concat3("## ", title, "\n").concat(items.as_str())
}

/// A task is complete when a tool result starts with this marker.
pub open spec fn completion_marker() -> Seq<char> {
    "TASK_COMPLETE: "@
}

/// The summary that a tool result reports when it marks the task complete:
/// what follows the marker at its start.
pub open spec fn completed_summary(result: Seq<char>) -> Option<Seq<char>> {
    if starts_with_seq(result, completion_marker()) {
        Some(result.skip(completion_marker().len() as int))
    } else {
        None
    }
}

/// The summary of a tool result that marks the task complete.
pub fn task_complete_summary(result: &str) -> (r: Option<String>)
    ensures
        opt_view(r) == completed_summary(result@),
{
    proof {
        reveal_strlit("TASK_COMPLETE: ");
    }
    let v = crate::text::chars_of(result);
    let m = crate::text::chars_of("TASK_COMPLETE: ");
    if v.len() < m.len() || !crate::text::occurs_at_exec(&v, &m, 0) {
        return None;
    }
    assert(v@.subrange(0, m@.len() as int) == m@);
    Some(crate::text::string_from_chars(v.as_slice(), m.len(), v.len()))
}

/// `s` without the colons at its start.
pub open spec fn trim_start_colons(s: Seq<char>) -> Seq<char>
    decreases s.len(),
{
    if s.len() > 0 && s[0] == ':' {
        trim_start_colons(s.drop_first())
    } else {
        s
    }
}

/// The summary that a reply's text gives after the first `TASK_COMPLETE`:
/// the rest of the text without leading colons, trimmed, where that is not
/// empty.
pub open spec fn reply_summary(content: Seq<char>) -> Option<Seq<char>> {
    if contains_seq(content, "TASK_COMPLETE"@) {
        let i = choose|i: int|
            crate::text::occurs_at(content, "TASK_COMPLETE"@, i) && forall|j: int|
                0 <= j < i ==> !crate::text::occurs_at(content, "TASK_COMPLETE"@, j);
        let s = trim(trim_start_colons(content.skip(i + 13)));
        if s.len() > 0 {
            Some(s)
        } else {
            None
        }
    } else {
        None
    }
}

/// The summary that a reply's text gives after `TASK_COMPLETE`, if any.
pub fn extract_task_complete_summary(content: &str) -> (r: Option<String>)
    ensures
        opt_view(r) == reply_summary(content@),
{
    proof {
        reveal_strlit("TASK_COMPLETE");
    }
    let v = crate::text::chars_of(content);
    let m = crate::text::chars_of("TASK_COMPLETE");
    let idx = match find_seq(&v, &m) {
        Some(i) => i,
        None => return None,
    };
    assert(contains_seq(content@, "TASK_COMPLETE"@));
    let ghost w = choose|i: int|
        crate::text::occurs_at(content@, "TASK_COMPLETE"@, i) && forall|j: int|
            0 <= j < i ==> !crate::text::occurs_at(content@, "TASK_COMPLETE"@, j);
    assert(w == idx) by {
        assert(crate::text::occurs_at(content@, "TASK_COMPLETE"@, idx as int));
        if w < idx {
        } else if w > idx {
        }
    }
    let n = v.len();
    assert(m@.len() == 13);
    assert(idx + 13 <= n);
    let mut s = idx + 13;
    assert(v@.skip(s as int) == content@.skip(idx + 13));
    while s < n && v[s] == ':'
        invariant
            idx + 13 <= s <= n == v@.len(),
            trim_start_colons(content@.skip(idx + 13)) == trim_start_colons(v@.skip(s as int)),
        decreases n - s,
    {
        assert(v@.skip(s as int).drop_first() =~= v@.skip(s + 1));
        s = s + 1;
    }
    assert(trim_start_colons(v@.skip(s as int)) == v@.skip(s as int));
    let tail = crate::text::string_from_chars(v.as_slice(), s, n);
    assert(v@.subrange(s as int, n as int) =~= v@.skip(s as int));
    let t = trim_string(tail.as_str());
    if t.as_str().unicode_len() == 0 {
        None
    } else {
        Some(t)
    }
}

/// The result reported for a tool that failed.
pub fn tool_failure_result(error: &str) -> (s: String)
    ensures
        s@ == "工具执行失败: "@ + error@,
{
    concat2("工具执行失败: ", error)
}

/// Why a tool was not run: its arguments are not valid JSON.
pub fn invalid_arguments_error(arguments_text: &str) -> (s: String)
    ensures
        s@ == "工具参数不是合法 JSON: "@ + arguments_text@,
{
    concat2("工具参数不是合法 JSON: ", arguments_text)
}

/// What the human typed, as the `ask_human` tool reports it.
pub open spec fn human_reply_text(input: Seq<char>) -> Seq<char> {
    if trim(input).len() == 0 {
        "人类未提供回复"@
    } else {
        "人类回复："@ + trim(input)
    }
}

/// What the human typed, as the `ask_human` tool reports it.
pub fn human_reply_result(input: &str) -> (s: String)
    ensures
        s@ == human_reply_text(input@),
{
    let t = trim_string(input);
    if t.as_str().unicode_len() == 0 {
        String::from_str("人类未提供回复")
    } else {
        concat2("人类回复：", t.as_str())
    }
}

/// What a tool call asks the agent to do, with its decoded arguments.
/// Coordinates of the pointer tools are decoded by the caller, which maps
/// them onto the screens.
pub enum ToolAction {
    Click,
    RightClick,
    DoubleClick,
    Hover,
    Scroll { direction: String, clicks: i32 },
    PageDown,
    PageUp,
    Drag,
    TypeText(TypeTextArgs),
    PressKey(PressKeyArgs),
    Hotkey(HotkeyArgs),
    OpenApplication(OpenApplicationArgs),
    CloseApplication(CloseApplicationArgs),
    FocusApplication(FocusApplicationArgs),
    Wait { seconds: u64 },
    AskHuman { question: String },
    TaskComplete(TaskCompleteArgs),
    ReadClipboard,
}

/// The error for a missing or non-string argument.
pub open spec fn missing_string(key: Seq<char>) -> Seq<char> {
    "缺少或无效参数: "@ + key + " (string)"@
}

/// The error for a missing or non-array argument.
pub open spec fn missing_array(key: Seq<char>) -> Seq<char> {
    "缺少或无效参数: "@ + key + " (array)"@
}

/// The error for an array argument with an item that is not a string.
pub open spec fn non_string_item(key: Seq<char>) -> Seq<char> {
    "参数 "@ + key + " 包含非字符串元素"@
}

/// The error for a tool that the agent does not have.
pub open spec fn unknown_tool(name: Seq<char>) -> Seq<char> {
    "未知工具: "@ + name
}

/// The text of a string argument, or the default where it is absent or not
/// a string.
pub open spec fn str_arg_or(args: JsonValue, key: Seq<char>, default: Seq<char>) -> Seq<char> {
    match as_str_spec(get_spec(args, key)) {
        Some(s) => s,
        None => default,
    }
}

/// The value of an integer argument that fits in `i32`.
pub open spec fn i32_arg(args: JsonValue, key: Seq<char>) -> Option<i32> {
    match as_i64_spec(get_spec(args, key)) {
        Some(v) => if i32::MIN <= v <= i32::MAX {
            Some(v as i32)
        } else {
            None
        },
        None => None,
    }
}

/// The seconds that `wait` waits: the argument where it is a non-negative
/// integer (3 otherwise), at most 30.
pub open spec fn wait_seconds(args: JsonValue) -> u64 {
    let s = match as_u64_spec(get_spec(args, "seconds"@)) {
        Some(v) => v,
        None => 3u64,
    };
    if s > 30 {
        30u64
    } else {
        s
    }
}

/// Every item of the array is a string.
pub open spec fn all_strings(items: Seq<JsonValue>) -> bool {
    forall|i: int| 0 <= i < items.len() ==> (#[trigger] items[i]) is String
}

/// The texts of an array of strings.
pub open spec fn item_strings(items: Seq<JsonValue>) -> Seq<Seq<char>> {
    items.map_values(|v: JsonValue| as_str_spec(Some(v))->0)
}

/// The argument under `key` as a string, or the error for it.
fn require_str(args: &JsonValue, key: &str) -> (r: Result<String, ToolError>)
    ensures
        match as_str_spec(get_spec(*args, key@)) {
            Some(s) => r matches Ok(t) && t@ == s,
            None => r matches Err(e) && e.0@ == missing_string(key@),
        },
{
    match get_str(args, key) {
        Some(s) => Ok(to_owned_string(s)),
        None => Err(ToolError(concat3("缺少或无效参数: ", key, " (string)"))),
    }
}

/// The argument under `key` as a list of strings, or the error for it.
fn require_string_array(args: &JsonValue, key: &str) -> (r: Result<Vec<String>, ToolError>)
    ensures
        match as_array_spec(get_spec(*args, key@)) {
            None => r matches Err(e) && e.0@ == missing_array(key@),
            Some(items) => if all_strings(items) {
                r matches Ok(v) && string_views(v@) == item_strings(items)
            } else {
                r matches Err(e) && e.0@ == non_string_item(key@)
            },
        },
{
    let items = match args.get(key) {
        Some(v) => match v.as_array() {
            Some(a) => a,
            None => return Err(ToolError(concat3("缺少或无效参数: ", key, " (array)"))),
        },
        None => return Err(ToolError(concat3("缺少或无效参数: ", key, " (array)"))),
    };
    let mut out: Vec<String> = Vec::new();
    let n = items.len();
    for i in 0..n
        invariant
            n == items@.len(),
            as_array_spec(get_spec(*args, key@)) == Some(items@),
            all_strings(items@.take(i as int)),
            string_views(out@) == item_strings(items@.take(i as int)),
    {
        match items[i].as_str() {
            Some(s) => {
                let t = to_owned_string(s);
                let ghost before = string_views(out@);
                out.push(t);
                assert(string_views(out@) =~= before.push(t@));
                assert(item_strings(items@.take(i + 1)) =~= item_strings(items@.take(i as int)).push(
                    as_str_spec(Some(items@[i as int]))->0,
                ));
                assert(all_strings(items@.take(i + 1))) by {
                    assert forall|j: int| 0 <= j < i + 1 implies (#[trigger] items@.take(i + 1)[j]) is String by {
                        if j < i {
                            assert(items@.take(i + 1)[j] == items@.take(i as int)[j]);
                        }
                    }
                }
            },
            None => {
                assert(!all_strings(items@)) by {
                    assert(!(items@[i as int] is String));
                }
                return Err(ToolError(concat3("参数 ", key, " 包含非字符串元素")));
            },
        }
    }
    assert(items@.take(n as int) =~= items@);
    Ok(out)
}

/// The text of a string argument, or the default.
fn str_arg_or_exec(args: &JsonValue, key: &str, default: &str) -> (r: String)
    ensures
        r@ == str_arg_or(*args, key@, default@),
{
    crate::json::get_str_or(args, key, default)
}

/// What a call of the tool `name` with the arguments `args` gives: the
/// pointer tools, the page keys and the clipboard ask for their action
/// alone; `scroll` reads its direction (default `down`) and its number of
/// steps (default 3); the keyboard and application tools need their string
/// arguments and `hotkey` a list of strings; `wait` waits the given seconds
/// (3 by default, at most 30); `ask_human` and `task_complete` read their
/// text with a default; any other name is an unknown tool.
pub open spec fn planned(name: Seq<char>, args: JsonValue, r: Result<ToolAction, ToolError>) -> bool {
    if name == "click"@ {
        r matches Ok(ToolAction::Click)
    } else if name == "right_click"@ {
        r matches Ok(ToolAction::RightClick)
    } else if name == "double_click"@ {
        r matches Ok(ToolAction::DoubleClick)
    } else if name == "hover"@ {
        r matches Ok(ToolAction::Hover)
    } else if name == "scroll"@ {
        r matches Ok(ToolAction::Scroll { direction, clicks }) && direction@ == str_arg_or(
            args,
            "direction"@,
            "down"@,
        ) && clicks == match i32_arg(args, "clicks"@) {
            Some(c) => c,
            None => 3i32,
        }
    } else if name == "page_down"@ {
        r matches Ok(ToolAction::PageDown)
    } else if name == "page_up"@ {
        r matches Ok(ToolAction::PageUp)
    } else if name == "drag"@ {
        r matches Ok(ToolAction::Drag)
    } else if name == "type_text"@ {
        match as_str_spec(get_spec(args, "text"@)) {
            Some(t) => r matches Ok(ToolAction::TypeText(a)) && a.text@ == t,
            None => r matches Err(e) && e.0@ == missing_string("text"@),
        }
    } else if name == "press_key"@ {
        match as_str_spec(get_spec(args, "key"@)) {
            Some(t) => r matches Ok(ToolAction::PressKey(a)) && a.key@ == t,
            None => r matches Err(e) && e.0@ == missing_string("key"@),
        }
    } else if name == "hotkey"@ {
        match as_array_spec(get_spec(args, "modifiers"@)) {
            None => r matches Err(e) && e.0@ == missing_array("modifiers"@),
            Some(items) => if !all_strings(items) {
                r matches Err(e) && e.0@ == non_string_item("modifiers"@)
            } else {
                match as_str_spec(get_spec(args, "key"@)) {
                    Some(k) => r matches Ok(ToolAction::Hotkey(a)) && a.key@ == k && string_views(
                        a.modifiers@,
                    ) == item_strings(items),
                    None => r matches Err(e) && e.0@ == missing_string("key"@),
                }
            },
        }
    } else if name == "open_application"@ {
        match as_str_spec(get_spec(args, "app_name"@)) {
            Some(t) => r matches Ok(ToolAction::OpenApplication(a)) && a.app_name@ == t,
            None => r matches Err(e) && e.0@ == missing_string("app_name"@),
        }
    } else if name == "close_application"@ {
        match as_str_spec(get_spec(args, "app_name"@)) {
            Some(t) => r matches Ok(ToolAction::CloseApplication(a)) && a.app_name@ == t,
            None => r matches Err(e) && e.0@ == missing_string("app_name"@),
        }
    } else if name == "focus_application"@ {
        match as_str_spec(get_spec(args, "app_name"@)) {
            Some(t) => r matches Ok(ToolAction::FocusApplication(a)) && a.app_name@ == t,
            None => r matches Err(e) && e.0@ == missing_string("app_name"@),
        }
    } else if name == "wait"@ {
        r matches Ok(ToolAction::Wait { seconds }) && seconds == wait_seconds(args)
    } else if name == "ask_human"@ {
        r matches Ok(ToolAction::AskHuman { question }) && question@ == str_arg_or(
            args,
            "question"@,
            "需要你的帮助"@,
        )
    } else if name == "task_complete"@ {
        r matches Ok(ToolAction::TaskComplete(a)) && a.summary@ == str_arg_or(
            args,
            "summary"@,
            "任务完成"@,
        )
    } else if name == "read_clipboard"@ {
        r matches Ok(ToolAction::ReadClipboard)
    } else {
        r matches Err(e) && e.0@ == unknown_tool(name)
    }
}

/// The tool whose call an action carries out.
pub open spec fn action_tool(a: ToolAction) -> Seq<char> {
    match a {
        ToolAction::Click => "click"@,
        ToolAction::RightClick => "right_click"@,
        ToolAction::DoubleClick => "double_click"@,
        ToolAction::Hover => "hover"@,
        ToolAction::Scroll { .. } => "scroll"@,
        ToolAction::PageDown => "page_down"@,
        ToolAction::PageUp => "page_up"@,
        ToolAction::Drag => "drag"@,
        ToolAction::TypeText(_) => "type_text"@,
        ToolAction::PressKey(_) => "press_key"@,
        ToolAction::Hotkey(_) => "hotkey"@,
        ToolAction::OpenApplication(_) => "open_application"@,
        ToolAction::CloseApplication(_) => "close_application"@,
        ToolAction::FocusApplication(_) => "focus_application"@,
        ToolAction::Wait { .. } => "wait"@,
        ToolAction::AskHuman { .. } => "ask_human"@,
        ToolAction::TaskComplete(_) => "task_complete"@,
        ToolAction::ReadClipboard => "read_clipboard"@,
    }
}

/// A call is planned into the action of the tool called and no other: the
/// action that a call of `name` gives carries out the tool `name`.
pub proof fn law_action_carries_out_the_tool_called(name: Seq<char>, args: JsonValue, r: Result<ToolAction, ToolError>)
    requires
        planned(name, args, r),
        r is Ok,
    ensures
        action_tool(r->Ok_0) == name,
{
}

/// Calls of two different tools never give the same kind of action.
pub proof fn law_distinct_tools_give_distinct_actions(
    name1: Seq<char>,
    args1: JsonValue,
    r1: Result<ToolAction, ToolError>,
    name2: Seq<char>,
    args2: JsonValue,
    r2: Result<ToolAction, ToolError>,
)
    requires
        planned(name1, args1, r1),
        planned(name2, args2, r2),
        r1 is Ok,
        r2 is Ok,
        name1 != name2,
    ensures
        action_tool(r1->Ok_0) != action_tool(r2->Ok_0),
{
    law_action_carries_out_the_tool_called(name1, args1, r1);
    law_action_carries_out_the_tool_called(name2, args2, r2);
}

/// Each pointer tool, whatever its arguments, plans its own action: a
/// click, a right click, a double click, a hover or a drag.
pub proof fn law_pointer_tools_plan_their_actions(args: JsonValue, r: Result<ToolAction, ToolError>)
    ensures
        planned("click"@, args, r) ==> r matches Ok(ToolAction::Click),
        planned("right_click"@, args, r) ==> r matches Ok(ToolAction::RightClick),
        planned("double_click"@, args, r) ==> r matches Ok(ToolAction::DoubleClick),
        planned("hover"@, args, r) ==> r matches Ok(ToolAction::Hover),
        planned("drag"@, args, r) ==> r matches Ok(ToolAction::Drag),
{
    reveal_strlit("click");
    reveal_strlit("right_click");
    reveal_strlit("double_click");
    reveal_strlit("hover");
    reveal_strlit("scroll");
    reveal_strlit("page_down");
    reveal_strlit("page_up");
    reveal_strlit("drag");
    assert("click"@.len() == 5);
    assert("right_click"@.len() == 11);
    assert("double_click"@.len() == 12);
    assert("right_click"@ != "click"@);
    assert("double_click"@ != "click"@);
    assert("double_click"@ != "right_click"@);
    assert("hover"@.len() == 5 && "scroll"@.len() == 6 && "page_down"@.len() == 9);
    assert("page_up"@.len() == 7 && "drag"@.len() == 4);
    assert("hover"@[0] != "click"@[0]);
    assert("hover"@ != "click"@);
}

/// What a call of the tool `name` with the arguments `args` asks for; the
/// error names the argument that is missing or malformed, or the unknown
/// tool.
pub fn plan_tool(name: &str, args: &JsonValue) -> (r: Result<ToolAction, ToolError>)
    ensures
        planned(name@, *args, r),
{
    let is = |lit: &str| -> (b: bool)
        ensures
            b == (name@ == lit@),
        { crate::json::str_eq(name, lit) };
    if is("click") {
        Ok(ToolAction::Click)
    } else if is("right_click") {
        Ok(ToolAction::RightClick)
    } else if is("double_click") {
        Ok(ToolAction::DoubleClick)
    } else if is("hover") {
        Ok(ToolAction::Hover)
    } else if is("scroll") {
        let direction = str_arg_or_exec(args, "direction", "down");
        let clicks: i32 = match args.get("clicks") {
            Some(v) => match v.as_i64() {
                Some(c) => if i32::MIN as i64 <= c && c <= i32::MAX as i64 {
                    c as i32
                } else {
                    3
                },
                None => 3,
            },
            None => 3,
        };
        Ok(ToolAction::Scroll { direction, clicks })
    } else if is("page_down") {
        Ok(ToolAction::PageDown)
    } else if is("page_up") {
        Ok(ToolAction::PageUp)
    } else if is("drag") {
        Ok(ToolAction::Drag)
    } else if is("type_text") {
        let text = match require_str(args, "text") {
            Ok(v) => v,
            Err(e) => return Err(e),
        };
        Ok(ToolAction::TypeText(TypeTextArgs { text }))
    } else if is("press_key") {
        let key = match require_str(args, "key") {
            Ok(v) => v,
            Err(e) => return Err(e),
        };
        Ok(ToolAction::PressKey(PressKeyArgs { key }))
    } else if is("hotkey") {
        let modifiers = match require_string_array(args, "modifiers") {
            Ok(v) => v,
            Err(e) => return Err(e),
        };
        let key = match require_str(args, "key") {
            Ok(v) => v,
            Err(e) => return Err(e),
        };
        Ok(ToolAction::Hotkey(HotkeyArgs { modifiers, key }))
    } else if is("open_application") {
        let app_name = match require_str(args, "app_name") {
            Ok(v) => v,
            Err(e) => return Err(e),
        };
        Ok(ToolAction::OpenApplication(OpenApplicationArgs { app_name }))
    } else if is("close_application") {
        let app_name = match require_str(args, "app_name") {
            Ok(v) => v,
            Err(e) => return Err(e),
        };
        Ok(ToolAction::CloseApplication(CloseApplicationArgs { app_name }))
    } else if is("focus_application") {
        let app_name = match require_str(args, "app_name") {
            Ok(v) => v,
            Err(e) => return Err(e),
        };
        Ok(ToolAction::FocusApplication(FocusApplicationArgs { app_name }))
    } else if is("wait") {
        let s: u64 = match args.get("seconds") {
            Some(v) => match v.as_u64() {
                Some(x) => x,
                None => 3,
            },
            None => 3,
        };
        let seconds = if s > 30 {
            30
        } else {
            s
        };
        Ok(ToolAction::Wait { seconds })
    } else if is("ask_human") {
        let question = str_arg_or_exec(args, "question", "需要你的帮助");
        Ok(ToolAction::AskHuman { question })
    } else if is("task_complete") {
        let summary = str_arg_or_exec(args, "summary", "任务完成");
        Ok(ToolAction::TaskComplete(TaskCompleteArgs { summary }))
    } else if is("read_clipboard") {
        Ok(ToolAction::ReadClipboard)
    } else {
        Err(ToolError(concat2("未知工具: ", name)))
    }
}

/// The question that an `ask_human` call asks, as the task loop reads it
/// from the call's arguments (absent where they are not valid JSON).
pub fn ask_human_question(args: Option<&JsonValue>) -> (q: String)
    ensures
        q@ == match args {
            Some(a) => str_arg_or(*a, "question"@, "需要你的帮助"@),
            None => "需要你的帮助"@,
        },
{
    match args {
        Some(a) => str_arg_or_exec(a, "question", "需要你的帮助"),
        None => String::from_str("需要你的帮助"),
    }
}

/// The text that `{:?}` gives for a list of strings (`Vec<String>`'s
/// `Debug`: each string quoted with its special characters escaped,
/// separated by `, `, in square brackets).
pub uninterp spec fn debug_list_text(items: Seq<Seq<char>>) -> Seq<char>;

/// Formats a list of strings with `{:?}`; the text is `debug_list_text` of
/// the strings.
#[verifier::external_body]
fn debug_list(items: &Vec<String>) -> (r: String)
    ensures
        r@ == debug_list_text(string_views(items@)),
{
    format!("{:?}", items)
}

/// What a tool reports once its action is done, for the tools whose report
/// depends on nothing but their arguments.
pub open spec fn action_report_text(a: ToolAction) -> Option<Seq<char>> {
    match a {
        ToolAction::Hotkey(x) => Some("已执行组合键: "@ + debug_list_text(string_views(x.modifiers@)) + "+"@ + x.key@),
        ToolAction::PageDown => Some("已执行向下翻页（Space）"@),
        ToolAction::PageUp => Some("已执行向上翻页（Shift+Space）"@),
        ToolAction::TypeText(x) => Some("已输入文本: "@ + x.text@),
        ToolAction::PressKey(x) => Some("已按下按键: "@ + x.key@),
        ToolAction::OpenApplication(x) => Some("已打开应用: "@ + x.app_name@),
        ToolAction::CloseApplication(x) => Some("已关闭应用: "@ + x.app_name@),
        ToolAction::FocusApplication(x) => Some("已聚焦应用: "@ + x.app_name@),
        ToolAction::Wait { seconds } => Some("已等待 "@ + decimal(seconds as nat) + " 秒"@),
        ToolAction::TaskComplete(x) => Some(completion_marker() + x.summary@),
        _ => None,
    }
}

/// What a tool reports once its action is done, where that depends on
/// nothing but its arguments.
pub fn action_report(a: &ToolAction) -> (r: Option<String>)
    ensures
        opt_view(r) == action_report_text(*a),
{
    match a {
        ToolAction::PageDown => Some(String::from_str("已执行向下翻页（Space）")),
        ToolAction::PageUp => Some(String::from_str("已执行向上翻页（Shift+Space）")),
        ToolAction::TypeText(x) => Some(concat2("已输入文本: ", x.text.as_str())),
        ToolAction::PressKey(x) => Some(concat2("已按下按键: ", x.key.as_str())),
        ToolAction::Hotkey(x) => {
            let mods = debug_list(&x.modifiers);
            let head = concat3("已执行组合键: ", mods.as_str(), "+");
            Some(concat2(head.as_str(), x.key.as_str()))
        },
        ToolAction::OpenApplication(x) => Some(concat2("已打开应用: ", x.app_name.as_str())),
        ToolAction::CloseApplication(x) => Some(concat2("已关闭应用: ", x.app_name.as_str())),
        ToolAction::FocusApplication(x) => Some(concat2("已聚焦应用: ", x.app_name.as_str())),
        ToolAction::Wait { seconds } => {
            let d = u64_to_decimal(*seconds);
            Some(concat3("已等待 ", d.as_str(), " 秒"))
        },
        ToolAction::TaskComplete(x) => Some(concat2("TASK_COMPLETE: ", x.summary.as_str())),
        _ => None,
    }
}

/// What `read_clipboard` reports of the clipboard's text.
pub fn clipboard_report(content: &str) -> (r: String)
    ensures
        r@ == if content@.len() == 0 {
            "剪贴板为空"@
        } else {
            content@
        },
{
    if content.unicode_len() == 0 {
        String::from_str("剪贴板为空")
    } else {
        String::from_str(content)
    }
}

/// The fixed part of the system prompt: the coordinate rules, the tools,
/// and how to work.
pub const PREAMBLE: &'static str = r#"你是一个 macOS 屏幕控制助手。你可以看到当前屏幕截图，并通过工具执行操作来完成用户的任务。

⚠️ 坐标规则非常重要：
- 所有鼠标相关工具的坐标都是归一化坐标，范围 [0, 999]
- x=0 表示截图最左，x=999 表示截图最右
- y=0 表示截图最上，y=999 表示截图最下
- 你只需要基于当前截图给出 [0,999] 坐标，不需要关心多屏映射细节

## 可用工具

### 鼠标操作
- click(x, y) - 左键单击指定坐标
- right_click(x, y) - 右键点击指定坐标，打开右键菜单
- double_click(x, y) - 双击指定坐标，用于打开文件或选中文字
- hover(x, y) - 将鼠标移到指定坐标，不点击，用于触发悬停菜单或提示
- page_down() - 向下翻页（模拟 Space），适用于浏览器等页面滚动
- page_up() - 向上翻页（模拟 Shift+Space），适用于浏览器等页面滚动
- scroll(x, y, direction, clicks) - 在指定坐标滚动（鼠标滚轮，作为补充手段）
- drag(from_x, from_y, to_x, to_y) - 从起点拖拽到终点

### 键盘操作
- type_text(text) - 输入文本
- press_key(key) - 按下单个按键（如 enter, tab, escape, backspace, space, up, down, left, right, f1-f12）
- hotkey(modifiers, key) - 组合键操作（modifiers 为数组，如 [\"command\"], [\"command\", \"shift\"]）

### 应用管理
- open_application(app_name) - 打开应用
- close_application(app_name) - 关闭应用
- focus_application(app_name) - 聚焦应用到前台

### 任务控制
- wait(seconds) - 等待指定秒数，用于等待页面加载、动画完成等场景
- ask_human(question) - 向人类提问或请求帮助。当你不确定如何操作、需要人类协助完成某个步骤、或需要人类提供额外信息时使用此工具。
- task_complete(summary) - 任务完成时调用，summary 为完成摘要

### 系统工具
- read_clipboard() - 读取系统剪贴板中的文本内容

## 操作规则
1. 仔细分析屏幕截图，确定需要操作的元素位置
2. 你可以在一次回复中调用多个工具，它们会按顺序依次执行，尽量一次性多调用工具以提升操作效率。
3. 操作后等待屏幕更新，观察结果再决定下一步
4. 任务完成后必须调用 task_complete
5. 控制应用时优先使用快捷键（hotkey / press_key）完成操作，仅在快捷键不可用或无法确定时再使用鼠标。
6. 需要页面滚动时，优先使用 page_down/page_up；仅在必须精确滚轮控制时使用 scroll。
7. 优先使用系统中有的软件，接着是浏览器网页。
8. 注意qcu是你自己，你不能调用你自己。
"#;

/// The text sent instead of a screenshot that barely differs from the one
/// before.
pub const SCREEN_UNCHANGED_HINT: &'static str = "[系统提示] 页面未发生显著变化。请基于当前屏幕继续分析并执行下一步操作。";

/// The system prompt: the fixed part, the installed and the running
/// applications, and the user's own prompt where it is not blank.
pub open spec fn system_prompt(
    installed: Seq<String>,
    running: Seq<String>,
    user_prompt: Option<Seq<char>>,
) -> Seq<char> {
    let context = app_list_section("系统已安装的应用程序"@, installed) + "\n\n"@ + app_list_section(
        "当前正在运行的应用程序"@,
        running,
    );
    match user_prompt {
        Some(u) => if trim(u).len() > 0 {
            PREAMBLE@ + "\n\n"@ + context + "\n\n"@ + trim(u)
        } else {
            PREAMBLE@ + "\n\n"@ + context
        },
        None => PREAMBLE@ + "\n\n"@ + context,
    }
}

/// The system prompt, given the application lists and the content of the
/// user's prompt file where it could be read.
pub fn system_prompt_text(
    installed: &Vec<String>,
    running: &Vec<String>,
    user_prompt: Option<&str>,
) -> (s: String)
    ensures
        s@ == system_prompt(
            installed@,
            running@,
            match user_prompt {
                Some(u) => Some(u@),
                None => None,
            },
        ),
{
    let a = format_app_list_section("系统已安装的应用程序", installed);
    let b = format_app_list_section("当前正在运行的应用程序", running);
    let context = concat3(a.as_str(), "\n\n", b.as_str());
    let head = concat3(PREAMBLE, "\n\n", context.as_str());
    match user_prompt {
        Some(u) => {
            let t = trim_string(u);
            if t.as_str().unicode_len() > 0 {
                concat3(head.as_str(), "\n\n", t.as_str())
            } else {
                head
            }
        },
        None => head,
    }
}

/// What the task loop does after a reply.
pub enum ReplyOutcome {
    /// Run the tool calls that the reply asks for.
    RunTools,
    /// The reply's text reports the task done, with this summary.
    Completed(String),
    /// Go on with the next round.
    NextRound,
}

/// What the task loop does after a reply: tool calls are run; otherwise a
/// text that reports `TASK_COMPLETE` with a summary ends the task; otherwise
/// the next round starts.
pub fn reply_outcome(reply: &AssistantMessage) -> (r: ReplyOutcome)
    ensures
        reply.tool_calls is Some ==> r is RunTools,
        reply.tool_calls is None ==> match reply.content {
            Some(c) => match reply_summary(c@) {
                Some(s) => r matches ReplyOutcome::Completed(t) && t@ == s,
                None => r is NextRound,
            },
            None => r is NextRound,
        },
{
    if reply.tool_calls.is_some() {
        return ReplyOutcome::RunTools;
    }
    match &reply.content {
        Some(c) => match extract_task_complete_summary(c.as_str()) {
            Some(s) => ReplyOutcome::Completed(s),
            None => ReplyOutcome::NextRound,
        },
        None => ReplyOutcome::NextRound,
    }
}

/// Whether a tool call asks the human for help, which pauses the task.
pub fn is_ask_human(call: &ToolCall) -> (b: bool)
    ensures
        b == (call.function.name@ == "ask_human"@),
{
    crate::json::str_eq(call.function.name.as_str(), "ask_human")
}

/// The task to run: the one given to `run`, else the one given without a
/// subcommand, else the default.
pub fn choose_task_goal(run_task: Option<String>, task: Option<String>) -> (g: String)
    ensures
        g@ == match run_task {
            Some(t) => t@,
            None => match task {
                Some(t) => t@,
                None => "请描述要执行的任务，例如：qcu run \"打开浏览器并访问 example.com\""@,
            },
        },
{
    match run_task {
        Some(t) => t,
        None => match task {
            Some(t) => t,
            None => default_task_goal(),
        },
    }
}

} // verus!
