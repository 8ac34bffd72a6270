//! The task loop of the screen agent as a state machine: each step takes
//! what the outside world reported (a screenshot, the model's reply, a
//! tool's result) and says what to do next, keeping the conversation sent
//! to the model and the conversation log up to date.
use vstd::prelude::*;
use crate::conversation::{
    append_message, assistant_message, assistant_tool_calls_message, content_value, has_keys,
    has_str, is_tool_calls_message, is_tool_message, is_user_message, system_message, tool_message,
    user_message,
};
use crate::json::{get_spec, JsonValue};
use crate::screen_agent_v2::{
    ask_human_question, build_focused_app_shortcuts_context, completed_summary, compose_instruction,
    composed_instruction, extract_task_complete_summary, inject_shortcuts, is_ask_human,
    past_limit, reply_summary, round_instruction, round_instruction_text, round_limit_reached,
    shortcuts_context, should_inject_shortcuts, str_arg_or, task_complete_summary, TaskResult,
};
use crate::session::{content_text, is_stored_form, str_or_empty, title_after, Session, SessionMessage};
use crate::shortcut::ShortcutItem;
use crate::stream::{call_views, clone_opt, opt_view, AssistantMessage, ToolCall};
use crate::text::{concat2, concat3, decimal, u64_to_decimal};

verus! {

/// Where the task loop stands.
pub enum Phase {
    /// A round is about to start.
    RoundStart,
    /// Waiting for the screenshot of the round.
    Capturing,
    /// Waiting for the focused application's menu shortcuts.
    ReadingShortcuts,
    /// Waiting for the model's reply.
    AwaitingReply,
    /// Between the tool calls of a reply.
    RunningTools,
    /// Waiting for the result of a tool.
    ToolRunning,
    /// The task has ended.
    Finished,
}

/// What the outside world reports to the task loop.
pub enum TaskEvent {
    /// Go on (at the start of a round, or before the next tool call).
    Proceed,
    /// The round's screenshot (PNG in base64), whether it barely differs
    /// from the one before, and the focused application, if any.
    Captured { screenshot_base64: String, unchanged: bool, focused_app: Option<String> },
    /// The focused application's menu shortcuts, where they could be read.
    Shortcuts(Option<Vec<ShortcutItem>>),
    /// The model's service answered with an error status and this body.
    ApiError { status: String, body: String },
    /// The model's reply, with the arguments of each of its tool calls
    /// parsed as JSON (absent where they are not valid JSON).
    Reply { message: AssistantMessage, arguments: Vec<Option<JsonValue>> },
    /// A tool ran: its result, or why it failed.
    ToolDone(Result<String, String>),
}

/// A system notification shown when the task ends.
pub struct Notice {
    pub title: String,
    pub body: String,
}

/// What the task loop asks the outside world to do.
pub enum TaskAction {
    /// Take the screenshot of the round, compare it with the one before,
    /// read the focused application, and report `Captured`.
    Capture,
    /// Read the menu shortcuts of this application and report `Shortcuts`.
    ReadShortcuts(String),
    /// Send the conversation to the model and report `Reply` or `ApiError`.
    Request,
    /// Report `Proceed`, after a pause of three seconds where asked.
    NextCall { pause: bool },
    /// Run the tool `name` on its arguments (given as text, and parsed
    /// where they are valid JSON) and report `ToolDone`.
    RunTool { name: String, arguments_text: String, arguments: Option<JsonValue> },
    /// Save the conversation log, pause three seconds, and report `Proceed`.
    EndRound,
    /// Save the conversation log, show the notice, and end with `result`.
    Finish { result: TaskResult, notice: Notice },
}

/// The state of a running task.
pub struct TaskRun {
    pub task_goal: String,
    pub max_rounds: usize,
    pub round: usize,
    pub last_focused_app: Option<String>,
    pub final_result: String,
    pub messages: Vec<JsonValue>,
    pub session: Session,
    pub phase: Phase,
    pub pending_app: String,
    pub pending_instruction: String,
    pub pending_screenshot: Option<String>,
    pub calls: Vec<ToolCall>,
    pub arguments: Vec<Option<JsonValue>>,
    pub next_call: usize,
}

/// The notice text of a finished task.
pub open spec fn notice_is(n: Notice, title: Seq<char>, body: Seq<char>) -> bool {
    n.title@ == title && n.body@ == body
}

/// The text of a tool's outcome: its result, or the failure.
pub open spec fn tool_result_text(outcome: Result<String, String>) -> Seq<char> {
    match outcome {
        Ok(s) => s@,
        Err(e) => "工具执行失败: "@ + e@,
    }
}

/// The question of the `ask_human` call whose arguments are `args`.
pub open spec fn question_of(args: Option<JsonValue>) -> Seq<char> {
    match args {
        Some(a) => str_arg_or(a, "question"@, "需要你的帮助"@),
        None => "需要你的帮助"@,
    }
}

/// The screenshot attached to a round: none where it barely changed.
pub open spec fn attached(screenshot: Seq<char>, unchanged: bool) -> Option<Seq<char>> {
    if unchanged {
        None
    } else {
        Some(screenshot)
    }
}

/// `after` holds `before`'s conversation with `m` added, to the list sent
/// to the model and, in its stored form, to the log.
pub open spec fn logged(before: TaskRun, after: TaskRun, m: JsonValue) -> bool {
    &&& after.messages@ == before.messages@.push(m)
    &&& after.session.messages@.len() == before.session.messages@.len() + 1
    &&& after.session.messages@.drop_last() == before.session.messages@
    &&& is_stored_form(after.session.messages@.last(), m)
    &&& after.session.title@ == title_after(
        before.session.title@,
        str_or_empty(get_spec(m, "role"@)),
        content_text(get_spec(m, "content"@)),
    )
    &&& after.session.id == before.session.id
}

/// `after` holds the same conversation as `before`.
pub open spec fn same_conversation(before: TaskRun, after: TaskRun) -> bool {
    after.messages == before.messages && after.session == before.session
}

/// The task, its goal and round limit, stay as they were.
pub open spec fn keeps_task(before: TaskRun, after: TaskRun) -> bool {
    after.task_goal == before.task_goal && after.max_rounds == before.max_rounds
}

/// The tool calls of the current reply stay as they were.
pub open spec fn keeps_calls(before: TaskRun, after: TaskRun) -> bool {
    after.calls == before.calls && after.arguments == before.arguments && after.next_call
        == before.next_call
}

/// The round ends: the next one starts after the pause.
pub open spec fn round_ended(before: TaskRun, after: TaskRun, a: TaskAction) -> bool {
    a is EndRound && after.phase is RoundStart && after.round == before.round + 1
}

/// A task that ends with `result` and shows the notice `title`, `body`.
pub open spec fn finishes(after: TaskRun, a: TaskAction, result: TaskResult, title: Seq<char>, body: Seq<char>) -> bool {
    a matches TaskAction::Finish { result: r, notice } && r == result && notice_is(notice, title, body)
        && after.phase is Finished
}

/// A task that ends complete, with the summary `s`.
pub open spec fn completes(after: TaskRun, a: TaskAction, s: Seq<char>) -> bool {
    a matches TaskAction::Finish { result: TaskResult::Completed(t), notice } && t@ == s && notice_is(
        notice,
        "✅ 任务已完成"@,
        s,
    ) && after.phase is Finished
}

/// The start of a round: past the round limit the task pauses, with a
/// notice; otherwise the screen is captured.
pub open spec fn round_started(b: TaskRun, f: TaskRun, a: TaskAction) -> bool {
    &&& keeps_task(b, f) && keeps_calls(b, f) && same_conversation(b, f)
    &&& f.round == b.round && f.last_focused_app == b.last_focused_app && f.final_result == b.final_result
    &&& if past_limit(b.max_rounds as nat, b.round as nat) {
        finishes(
            f,
            a,
            TaskResult::MaxRoundsReached(b.max_rounds as u32),
            "⚠️ 已达到最大轮次"@,
            "已执行 "@ + decimal(b.max_rounds as nat) + " 轮，任务暂停并返回 REPL"@,
        )
    } else {
        a is Capture && f.phase is Capturing
    }
}

/// After the screenshot: the round's instruction is prepared; where the
/// focused application changed, its shortcuts are read first, otherwise
/// the user message (with the screenshot, unless it barely changed) is
/// added and sent.
pub open spec fn captured(b: TaskRun, f: TaskRun, a: TaskAction, shot: Seq<char>, unchanged: bool, focused: Option<Seq<char>>) -> bool {
    let instruction = round_instruction_text(b.task_goal@, b.round as nat);
    &&& keeps_task(b, f) && keeps_calls(b, f)
    &&& f.round == b.round && f.final_result == b.final_result
    &&& opt_view(f.last_focused_app) == focused
    &&& if inject_shortcuts(focused, opt_view(b.last_focused_app)) {
        &&& a matches TaskAction::ReadShortcuts(n) && focused == Some(n@) && f.pending_app@ == n@
        &&& f.phase is ReadingShortcuts
        &&& f.pending_instruction@ == instruction
        &&& opt_view(f.pending_screenshot) == attached(shot, unchanged)
        &&& same_conversation(b, f)
    } else {
        &&& a is Request && f.phase is AwaitingReply
        &&& logged(b, f, f.messages@.last())
        &&& is_user_message(f.messages@.last(), instruction, attached(shot, unchanged))
    }
}

/// After the shortcuts were read: the user message, whose instruction
/// carries the shortcut context where the shortcuts could be read, is
/// added and sent.
pub open spec fn shortcuts_read(b: TaskRun, f: TaskRun, a: TaskAction, items: Option<Seq<ShortcutItem>>) -> bool {
    let context = match items {
        Some(s) => Some(shortcuts_context(b.pending_app@, s)),
        None => None,
    };
    &&& keeps_task(b, f) && keeps_calls(b, f)
    &&& f.round == b.round && f.final_result == b.final_result && f.last_focused_app == b.last_focused_app
    &&& a is Request && f.phase is AwaitingReply
    &&& logged(b, f, f.messages@.last())
    &&& is_user_message(
        f.messages@.last(),
        composed_instruction(b.pending_instruction@, context),
        opt_view(b.pending_screenshot),
    )
}

/// The service refused: its status and body become the task's last result
/// and the round ends.
pub open spec fn api_failed(b: TaskRun, f: TaskRun, a: TaskAction, status: Seq<char>, body: Seq<char>) -> bool {
    &&& keeps_task(b, f) && keeps_calls(b, f) && same_conversation(b, f)
    &&& f.last_focused_app == b.last_focused_app
    &&& f.final_result@ == "API 错误 ("@ + status + "): "@ + body
    &&& round_ended(b, f, a)
}

/// After a reply: a reply with tool calls is added to the conversation and
/// its calls are run in order; a reply without is added, its text becomes
/// the task's last result, and it either reports the task complete or ends
/// the round.
pub open spec fn replied(b: TaskRun, f: TaskRun, a: TaskAction, message: AssistantMessage, arguments: Vec<Option<JsonValue>>) -> bool {
    let last = f.messages@.last();
    &&& keeps_task(b, f)
    &&& f.last_focused_app == b.last_focused_app
    &&& logged(b, f, last)
    &&& match message.tool_calls {
        Some(calls) => {
            &&& is_tool_calls_message(last, opt_view(message.content), call_views(calls@))
            &&& a matches TaskAction::NextCall { pause } && !pause
            &&& f.phase is RunningTools
            &&& f.calls == calls && f.arguments == arguments && f.next_call == 0
            &&& f.round == b.round && f.final_result == b.final_result
        },
        None => {
            &&& has_keys(last, seq!["role"@, "content"@]) && has_str(last, "role"@, "assistant"@)
            &&& content_value(get_spec(last, "content"@), opt_view(message.content))
            &&& keeps_calls(b, f)
            &&& f.final_result@ == match message.content {
                Some(c) => c@,
                None => b.final_result@,
            }
            &&& match message.content {
                Some(c) => match reply_summary(c@) {
                    Some(s) => completes(f, a, s) && f.round == b.round,
                    None => round_ended(b, f, a),
                },
                None => round_ended(b, f, a),
            }
        },
    }
}

/// Before a tool call: past the last call the round ends; a call of
/// `ask_human` adds its question to the conversation and pauses the task
/// for the human; any other call is run.
pub open spec fn call_advanced(b: TaskRun, f: TaskRun, a: TaskAction) -> bool {
    let i = b.next_call as int;
    &&& keeps_task(b, f)
    &&& f.last_focused_app == b.last_focused_app && f.final_result == b.final_result
    &&& if i == b.calls@.len() {
        round_ended(b, f, a) && same_conversation(b, f) && keeps_calls(b, f)
    } else if b.calls@[i].function.name@ == "ask_human"@ {
        &&& finishes(f, a, TaskResult::UserInterrupt, "💬 AI 需要你的帮助"@, question_of(b.arguments@[i]))
        &&& f.round == b.round && keeps_calls(b, f)
        &&& logged(b, f, f.messages@.last())
        &&& is_tool_message(f.messages@.last(), b.calls@[i].id@, "ASK_HUMAN: "@ + question_of(b.arguments@[i]))
    } else {
        &&& a matches TaskAction::RunTool { name, arguments_text, arguments } && name@
            == b.calls@[i].function.name@ && arguments_text@ == b.calls@[i].function.arguments@
            && arguments == b.arguments@[i]
        &&& f.phase is ToolRunning && f.round == b.round && same_conversation(b, f)
        &&& f.calls == b.calls && f.next_call == b.next_call
        &&& f.arguments@ == b.arguments@.update(i, None)
    }
}

/// After a tool ran: its result answers the call in the conversation; a
/// result that marks the task complete ends it with its summary, otherwise
/// the next call follows, after a pause where there is one.
pub open spec fn tool_finished(b: TaskRun, f: TaskRun, a: TaskAction, outcome: Result<String, String>) -> bool {
    let i = b.next_call as int;
    let result = tool_result_text(outcome);
    &&& keeps_task(b, f)
    &&& f.last_focused_app == b.last_focused_app && f.round == b.round
    &&& f.calls == b.calls && f.arguments == b.arguments
    &&& logged(b, f, f.messages@.last())
    &&& is_tool_message(f.messages@.last(), b.calls@[i].id@, result)
    &&& match completed_summary(result) {
        Some(s) => completes(f, a, s) && f.final_result@ == s && f.next_call == b.next_call,
        None => {
            &&& a matches TaskAction::NextCall { pause } && pause == (i + 1 < b.calls@.len())
            &&& f.next_call == b.next_call + 1 && f.phase is RunningTools
            &&& f.final_result == b.final_result
        },
    }
}

/// One step of the loop: from `b`, the event `e` leads to `f` and the
/// action `a`.
pub open spec fn stepped(b: TaskRun, e: TaskEvent, f: TaskRun, a: TaskAction) -> bool {
    match e {
        TaskEvent::Proceed => if b.phase is RoundStart {
            round_started(b, f, a)
        } else {
            call_advanced(b, f, a)
        },
        TaskEvent::Captured { screenshot_base64, unchanged, focused_app } => captured(
            b,
            f,
            a,
            screenshot_base64@,
            unchanged,
            opt_view(focused_app),
        ),
        TaskEvent::Shortcuts(items) => shortcuts_read(
            b,
            f,
            a,
            match items {
                Some(v) => Some(v@),
                None => None,
            },
        ),
        TaskEvent::ApiError { status, body } => api_failed(b, f, a, status@, body@),
        TaskEvent::Reply { message, arguments } => replied(b, f, a, message, arguments),
        TaskEvent::ToolDone(outcome) => tool_finished(b, f, a, outcome),
    }
}

/// The conversation only grows: a step keeps every earlier message, in
/// the list sent to the model and in the log, and adds at most one.
pub proof fn law_conversation_only_grows(b: TaskRun, e: TaskEvent, f: TaskRun, a: TaskAction)
    requires
        stepped(b, e, f, a),
    ensures
        f.messages@.take(b.messages@.len() as int) == b.messages@,
        f.messages@.len() <= b.messages@.len() + 1,
        f.session.messages@.take(b.session.messages@.len() as int) == b.session.messages@,
        f.session.messages@.len() <= b.session.messages@.len() + 1,
        f.session.id == b.session.id,
{
    if f.messages@.len() == b.messages@.len() + 1 {
        assert(f.messages@.take(b.messages@.len() as int) =~= f.messages@.drop_last());
        assert(f.session.messages@.take(b.session.messages@.len() as int) =~= f.session.messages@.drop_last());
    } else {
        assert(f.messages@.take(b.messages@.len() as int) =~= f.messages@);
        assert(f.session.messages@.take(b.session.messages@.len() as int) =~= f.session.messages@);
    }
}

/// The round limit holds: the screen is captured for a new round only
/// while the round is within the limit (a limit of 0 means none), and the
/// round counter never goes back.
pub proof fn law_rounds_within_limit(b: TaskRun, e: TaskEvent, f: TaskRun, a: TaskAction)
    requires
        stepped(b, e, f, a),
    ensures
        a is Capture ==> b.max_rounds == 0 || f.round <= b.max_rounds,
        f.round >= b.round,
{
}

/// In every round, a screenshot that comes with a focused application other
/// than the one last recorded leads to reading that application's menu
/// shortcuts, and the application is recorded.
pub proof fn law_focus_change_reads_shortcuts(b: TaskRun, e: TaskEvent, f: TaskRun, a: TaskAction, app: Seq<char>)
    requires
        stepped(b, e, f, a),
        e matches TaskEvent::Captured { focused_app: Some(n), .. } && n@ == app,
        opt_view(b.last_focused_app) != Some(app),
    ensures
        a matches TaskAction::ReadShortcuts(m) && m@ == app,
        opt_view(f.last_focused_app) == Some(app),
        f.round == b.round,
{
}

/// A screenshot with the application last recorded, or with none, leads
/// straight to the request, whose user message is added to the
/// conversation; no shortcuts are read.
pub proof fn law_same_focus_sends_request(b: TaskRun, e: TaskEvent, f: TaskRun, a: TaskAction)
    requires
        stepped(b, e, f, a),
        e is Captured,
        e->focused_app is None || opt_view(b.last_focused_app) == opt_view(e->focused_app),
    ensures
        a is Request,
        f.messages@.len() == b.messages@.len() + 1,
{
}

/// A step either keeps the conversation as it is or adds one message to
/// it, and its stored form to the log.
pub proof fn lemma_step_logs(b: TaskRun, e: TaskEvent, f: TaskRun, a: TaskAction)
    requires
        stepped(b, e, f, a),
    ensures
        same_conversation(b, f) || logged(b, f, f.messages@.last()),
{
}

/// `log` holds, message by message, the stored form of `msgs`.
pub open spec fn stored_forms(log: Seq<SessionMessage>, msgs: Seq<JsonValue>) -> bool {
    &&& log.len() == msgs.len()
    &&& forall|i: int| 0 <= i < msgs.len() ==> is_stored_form(#[trigger] log[i], msgs[i])
}

/// Since `b`, the conversation and its log have grown together: `f` holds
/// `b`'s conversation and log, each followed by the same number of new
/// messages, and the log holds each new message in its stored form.
pub open spec fn logged_since(b: TaskRun, f: TaskRun) -> bool {
    let m0 = b.messages@.len() as int;
    let s0 = b.session.messages@.len() as int;
    &&& f.messages@.len() >= m0 && f.messages@.take(m0) == b.messages@
    &&& f.session.messages@.len() >= s0 && f.session.messages@.take(s0) == b.session.messages@
    &&& stored_forms(f.session.messages@.skip(s0), f.messages@.skip(m0))
    &&& f.session.id == b.session.id
}

/// `states`, `events` and `actions` form a run of the loop: each state
/// steps, on its event, to the next state with its action.
pub open spec fn is_run(states: Seq<TaskRun>, events: Seq<TaskEvent>, actions: Seq<TaskAction>) -> bool {
    &&& states.len() == events.len() + 1
    &&& actions.len() == events.len()
    &&& forall|i: int|
        0 <= i < events.len() ==> #[trigger] stepped(states[i], events[i], states[i + 1], actions[i])
}

/// One more step keeps the conversation and its log growing together.
proof fn lemma_logged_since_step(b: TaskRun, m: TaskRun, f: TaskRun, e: TaskEvent, a: TaskAction)
    requires
        logged_since(b, m),
        stepped(m, e, f, a),
    ensures
        logged_since(b, f),
{
    lemma_step_logs(m, e, f, a);
    let m0 = b.messages@.len() as int;
    let s0 = b.session.messages@.len() as int;
    if !same_conversation(m, f) {
        let x = f.messages@.last();
        assert(f.messages@ == m.messages@.push(x));
        assert(f.session.messages@ =~= m.session.messages@.push(f.session.messages@.last()));
        assert(f.messages@.take(m0) =~= m.messages@.take(m0));
        assert(f.session.messages@.take(s0) =~= m.session.messages@.take(s0));
        assert(f.messages@.skip(m0) =~= m.messages@.skip(m0).push(x));
        assert(f.session.messages@.skip(s0) =~= m.session.messages@.skip(s0).push(
            f.session.messages@.last(),
        ));
        let log = f.session.messages@.skip(s0);
        let msgs = f.messages@.skip(m0);
        assert forall|i: int| 0 <= i < msgs.len() implies is_stored_form(#[trigger] log[i], msgs[i]) by {
            if i < msgs.len() - 1 {
                assert(log[i] == m.session.messages@.skip(s0)[i]);
                assert(msgs[i] == m.messages@.skip(m0)[i]);
            }
        }
    }
}

/// Over a whole run, the conversation sent to the model and the log grow
/// together: the last state holds the first state's conversation and log,
/// each followed by the same number of new messages, and the log holds
/// each new message, in order, in its stored form.
pub proof fn law_run_logs_every_message(states: Seq<TaskRun>, events: Seq<TaskEvent>, actions: Seq<TaskAction>)
    requires
        is_run(states, events, actions),
    ensures
        logged_since(states[0], states.last()),
    decreases events.len(),
{
    let b = states[0];
    if events.len() == 0 {
        let m0 = b.messages@.len() as int;
        let s0 = b.session.messages@.len() as int;
        assert(b.messages@.take(m0) =~= b.messages@);
        assert(b.session.messages@.take(s0) =~= b.session.messages@);
        assert(b.messages@.skip(m0) =~= Seq::<JsonValue>::empty());
        assert(b.session.messages@.skip(s0) =~= Seq::<SessionMessage>::empty());
    } else {
        let n = events.len() - 1;
        let ps = states.drop_last();
        let pe = events.drop_last();
        let pa = actions.drop_last();
        assert forall|i: int| 0 <= i < pe.len() implies #[trigger] stepped(
            ps[i],
            pe[i],
            ps[i + 1],
            pa[i],
        ) by {
            assert(stepped(states[i], events[i], states[i + 1], actions[i]));
        }
        law_run_logs_every_message(ps, pe, pa);
        assert(stepped(states[n], events[n], states[n + 1], actions[n]));
        lemma_logged_since_step(b, states[n], states.last(), events[n], actions[n]);
    }
}

/// `t` is a task just started from the conversation `messages` and its
/// log `log`: where the conversation is empty, the system prompt `prompt`
/// is its first message and is logged; otherwise both are kept as they are.
pub open spec fn started_from(t: TaskRun, messages: Seq<JsonValue>, log: Seq<SessionMessage>, prompt: Seq<char>) -> bool {
    if messages.len() > 0 {
        t.messages@ == messages && t.session.messages@ == log
    } else {
        &&& t.messages@.len() == 1
        &&& crate::conversation::is_text_message(t.messages@[0], "system"@, prompt)
        &&& t.session.messages@.len() == log.len() + 1
        &&& t.session.messages@.drop_last() == log
        &&& is_stored_form(t.session.messages@.last(), t.messages@[0])
    }
}

/// A task run from its start keeps the conversation it was given and its
/// log, and adds to both the same messages, the log holding each in its
/// stored form; where the conversation was empty, the system prompt comes
/// first.
pub proof fn law_task_keeps_and_logs_its_conversation(
    messages: Seq<JsonValue>,
    log: Seq<SessionMessage>,
    prompt: Seq<char>,
    states: Seq<TaskRun>,
    events: Seq<TaskEvent>,
    actions: Seq<TaskAction>,
)
    requires
        is_run(states, events, actions),
        started_from(states[0], messages, log, prompt),
    ensures
        states.last().messages@.len() >= messages.len(),
        states.last().messages@.take(messages.len() as int) == messages,
        states.last().session.messages@.len() >= log.len(),
        states.last().session.messages@.take(log.len() as int) == log,
        stored_forms(
            states.last().session.messages@.skip(log.len() as int),
            states.last().messages@.skip(messages.len() as int),
        ),
        messages.len() == 0 ==> states.last().messages@.len() > 0
            && crate::conversation::is_text_message(states.last().messages@[0], "system"@, prompt),
{
    law_run_logs_every_message(states, events, actions);
    let b = states[0];
    let f = states.last();
    if messages.len() == 0 {
        let fm = f.messages@;
        let fl = f.session.messages@;
        let s0 = b.session.messages@.len() as int;
        assert(fm.take(1) =~= b.messages@);
        assert(fm[0] == b.messages@[0]);
        assert(fl.take(s0) == b.session.messages@);
        assert(fl.take(log.len() as int) =~= log) by {
            assert(b.session.messages@.drop_last() =~= b.session.messages@.take(log.len() as int));
            assert(fl.take(log.len() as int) =~= fl.take(s0).take(log.len() as int));
        }
        let tail_l = fl.skip(s0);
        let tail_m = fm.skip(1);
        assert(fm.skip(0) =~= seq![fm[0]] + tail_m);
        assert(fl.skip(log.len() as int) =~= seq![fl[log.len() as int]] + tail_l);
        assert(fl[log.len() as int] == b.session.messages@.last()) by {
            assert(fl.take(s0)[log.len() as int] == fl[log.len() as int]);
        }
        let l2 = fl.skip(log.len() as int);
        let m2 = fm.skip(0);
        assert forall|i: int| 0 <= i < m2.len() implies is_stored_form(#[trigger] l2[i], m2[i]) by {
            if i > 0 {
                assert(l2[i] == tail_l[i - 1]);
                assert(m2[i] == tail_m[i - 1]);
            }
        }
    } else {
        assert(messages.len() == b.messages@.len());
        assert(log.len() == b.session.messages@.len());
    }
}

impl TaskRun {
    /// The state is consistent: the tool calls of the current reply and
    /// their parsed arguments go together, and a running tool is one of them.
    pub open spec fn wf(&self) -> bool {
        &&& self.next_call <= self.calls@.len()
        &&& self.arguments@.len() == self.calls@.len()
        &&& self.phase is ToolRunning ==> self.next_call < self.calls@.len()
    }

    /// The events that the loop expects in its phase.
    pub open spec fn expects(&self, e: TaskEvent) -> bool {
        match self.phase {
            Phase::RoundStart => e is Proceed,
            Phase::Capturing => e is Captured,
            Phase::ReadingShortcuts => e is Shortcuts,
            Phase::AwaitingReply => match e {
                TaskEvent::ApiError { .. } => true,
                TaskEvent::Reply { message, arguments } => match message.tool_calls {
                    Some(calls) => arguments@.len() == calls@.len(),
                    None => true,
                },
                _ => false,
            },
            Phase::RunningTools => e is Proceed,
            Phase::ToolRunning => e is ToolDone,
            Phase::Finished => false,
        }
    }

    /// A task that starts from the conversation `messages` and its log;
    /// where the conversation is empty, it first receives the system prompt.
    pub fn new(task_goal: String, max_rounds: usize, messages: Vec<JsonValue>, session: Session, system_prompt: &str) -> (t: TaskRun)
        ensures
            t.wf(),
            t.phase is RoundStart,
            t.round == 1,
            t.task_goal == task_goal,
            t.max_rounds == max_rounds,
            t.last_focused_app is None,
            t.final_result@.len() == 0,
            started_from(t, messages@, session.messages@, system_prompt@),
            messages@.len() > 0 ==> t.messages == messages && t.session == session,
            messages@.len() == 0 ==> t.messages@.len() == 1 && crate::conversation::is_text_message(
                t.messages@[0],
                "system"@,
                system_prompt@,
            ) && t.session.messages@.len() == session.messages@.len() + 1
                && t.session.messages@.drop_last() == session.messages@ && is_stored_form(
                t.session.messages@.last(),
                t.messages@[0],
            ) && t.session.id == session.id,
    {
        let mut messages = messages;
        let mut session = session;
        if messages.len() == 0 {
            let m = system_message(system_prompt);
            append_message(&mut messages, &mut session, m);
        }
        TaskRun {
            task_goal,
            max_rounds,
            round: 1,
            last_focused_app: None,
            final_result: String::new(),
            messages,
            session,
            phase: Phase::RoundStart,
            pending_app: String::new(),
            pending_instruction: String::new(),
            pending_screenshot: None,
            calls: Vec::new(),
            arguments: Vec::new(),
            next_call: 0,
        }
    }

    /// Whether the loop expects `e` now.
    pub fn expects_event(&self, e: &TaskEvent) -> (b: bool)
        ensures
            b == self.expects(*e),
    {
        match self.phase {
            Phase::RoundStart => matches!(e, TaskEvent::Proceed),
            Phase::Capturing => matches!(e, TaskEvent::Captured { .. }),
            Phase::ReadingShortcuts => matches!(e, TaskEvent::Shortcuts(_)),
            Phase::AwaitingReply => match e {
                TaskEvent::ApiError { .. } => true,
                TaskEvent::Reply { message, arguments } => match &message.tool_calls {
                    Some(calls) => arguments.len() == calls.len(),
                    None => true,
                },
                _ => false,
            },
            Phase::RunningTools => matches!(e, TaskEvent::Proceed),
            Phase::ToolRunning => matches!(e, TaskEvent::ToolDone(_)),
            Phase::Finished => false,
        }
    }

    /// Ends the round: the next one starts after the pause.
    fn end_round(&mut self) -> (a: TaskAction)
        requires
            old(self).round < usize::MAX,
        ensures
            a is EndRound,
            final(self).phase is RoundStart,
            final(self).round == old(self).round + 1,
            final(self).task_goal == old(self).task_goal,
            final(self).max_rounds == old(self).max_rounds,
            final(self).last_focused_app == old(self).last_focused_app,
            final(self).final_result == old(self).final_result,
            final(self).calls == old(self).calls,
            final(self).arguments == old(self).arguments,
            final(self).next_call == old(self).next_call,
            same_conversation(*old(self), *final(self)),
    {
        self.round = self.round + 1;
        self.phase = Phase::RoundStart;
        TaskAction::EndRound
    }

    /// The start of a round.
    fn start_round(&mut self) -> (a: TaskAction)
        requires
            old(self).phase is RoundStart,
        ensures
            round_started(*old(self), *final(self), a),
    {
        if round_limit_reached(self.max_rounds, self.round) {
            self.phase = Phase::Finished;
            let n = u64_to_decimal(self.max_rounds as u64);
            let body = concat3("已执行 ", n.as_str(), " 轮，任务暂停并返回 REPL");
            TaskAction::Finish {
                result: crate::screen_agent_v2::ScreenAgentV2::max_rounds_result(self.max_rounds),
                notice: Notice { title: String::from_str("⚠️ 已达到最大轮次"), body },
            }
        } else {
            self.phase = Phase::Capturing;
            TaskAction::Capture
        }
    }

    /// Takes in the round's screenshot.
    fn on_captured(&mut self, screenshot_base64: String, unchanged: bool, focused_app: Option<String>) -> (a: TaskAction)
        requires
            old(self).phase is Capturing,
        ensures
            captured(*old(self), *final(self), a, screenshot_base64@, unchanged, opt_view(focused_app)),
    {
        let ghost shot = screenshot_base64@;
        let ghost focused = opt_view(focused_app);
        let instruction = round_instruction(self.task_goal.as_str(), self.round);
        let inject = should_inject_shortcuts(&focused_app, &self.last_focused_app);
        let screenshot: Option<String> = if unchanged {
            None
        } else {
            Some(screenshot_base64)
        };
        assert(opt_view(screenshot) == attached(shot, unchanged));
        if inject {
            let name = match &focused_app {
                Some(f) => f.clone(),
                None => String::new(),
            };
            self.last_focused_app = focused_app;
            self.pending_app = name.clone();
            self.pending_instruction = instruction;
            self.pending_screenshot = screenshot;
            self.phase = Phase::ReadingShortcuts;
            TaskAction::ReadShortcuts(name)
        } else {
            self.last_focused_app = focused_app;
            let m = match &screenshot {
                Some(b) => user_message(instruction.as_str(), Some(b.as_str())),
                None => user_message(instruction.as_str(), None),
            };
            append_message(&mut self.messages, &mut self.session, m);
            self.phase = Phase::AwaitingReply;
            TaskAction::Request
        }
    }

    /// Takes in the focused application's menu shortcuts.
    fn on_shortcuts(&mut self, shortcuts: Option<Vec<ShortcutItem>>) -> (a: TaskAction)
        requires
            old(self).phase is ReadingShortcuts,
        ensures
            shortcuts_read(
                *old(self),
                *final(self),
                a,
                match shortcuts {
                    Some(v) => Some(v@),
                    None => None,
                },
            ),
    {
        let context = match &shortcuts {
            Some(items) => Some(build_focused_app_shortcuts_context(self.pending_app.as_str(), items)),
            None => None,
        };
        let instruction = compose_instruction(self.pending_instruction.as_str(), context);
        let m = match &self.pending_screenshot {
            Some(b) => user_message(instruction.as_str(), Some(b.as_str())),
            None => user_message(instruction.as_str(), None),
        };
        append_message(&mut self.messages, &mut self.session, m);
        self.phase = Phase::AwaitingReply;
        TaskAction::Request
    }

    /// Takes in a refusal of the model's service.
    fn on_api_error(&mut self, status: String, body: String) -> (a: TaskAction)
        requires
            old(self).round < usize::MAX,
        ensures
            api_failed(*old(self), *final(self), a, status@, body@),
    {
        let head = concat3("API 错误 (", status.as_str(), "): ");
        self.final_result = concat2(head.as_str(), body.as_str());
        self.end_round()
    }

    /// Takes in the model's reply.
    #[verifier::spinoff_prover]
    #[verifier::rlimit(40)]
    fn on_reply(&mut self, message: AssistantMessage, arguments: Vec<Option<JsonValue>>) -> (a: TaskAction)
        requires
            old(self).wf(),
            old(self).round < usize::MAX,
            message.tool_calls matches Some(calls) ==> arguments@.len() == calls@.len(),
        ensures
            replied(*old(self), *final(self), a, message, arguments),
            final(self).wf(),
    {
        let ghost msg = message;
        let ghost args = arguments;
        let AssistantMessage { content, tool_calls, reasoning_content: _ } = message;
        match tool_calls {
            Some(calls) => {
                let m = assistant_tool_calls_message(clone_opt(&content), &calls);
                append_message(&mut self.messages, &mut self.session, m);
                self.calls = calls;
                self.arguments = arguments;
                self.next_call = 0;
                self.phase = Phase::RunningTools;
                TaskAction::NextCall { pause: false }
            },
            None => {
                let summary = match &content {
                    Some(c) => {
                        self.final_result = c.clone();
                        extract_task_complete_summary(c.as_str())
                    },
                    None => None,
                };
                let m = assistant_message(content);
                append_message(&mut self.messages, &mut self.session, m);
                match summary {
                    Some(s) => {
                        self.phase = Phase::Finished;
                        let body = s.clone();
                        TaskAction::Finish {
                            result: TaskResult::Completed(s),
                            notice: Notice { title: String::from_str("✅ 任务已完成"), body },
                        }
                    },
                    None => self.end_round(),
                }
            },
        }
    }

    /// Goes on with the next tool call of the reply.
    fn advance_call(&mut self) -> (a: TaskAction)
        requires
            old(self).wf(),
            old(self).round < usize::MAX,
        ensures
            call_advanced(*old(self), *final(self), a),
            final(self).wf(),
    {
        let i = self.next_call;
        if i == self.calls.len() {
            return self.end_round();
        }
        if is_ask_human(&self.calls[i]) {
            let q = match &self.arguments[i] {
                Some(v) => ask_human_question(Some(v)),
                None => ask_human_question(None),
            };
            let content = concat2("ASK_HUMAN: ", q.as_str());
            let m = tool_message(self.calls[i].id.as_str(), content.as_str());
            append_message(&mut self.messages, &mut self.session, m);
            self.phase = Phase::Finished;
            TaskAction::Finish {
                result: TaskResult::UserInterrupt,
                notice: Notice { title: String::from_str("💬 AI 需要你的帮助"), body: q },
            }
        } else {
            let mut taken: Option<JsonValue> = None;
            self.arguments.set_and_swap(i, &mut taken);
            self.phase = Phase::ToolRunning;
            TaskAction::RunTool {
                name: self.calls[i].function.name.clone(),
                arguments_text: self.calls[i].function.arguments.clone(),
                arguments: taken,
            }
        }
    }

    /// Takes in the outcome of the running tool.
    fn on_tool_done(&mut self, outcome: Result<String, String>) -> (a: TaskAction)
        requires
            old(self).wf(),
            old(self).phase is ToolRunning,
        ensures
            tool_finished(*old(self), *final(self), a, outcome),
            final(self).wf(),
    {
        let i = self.next_call;
        let n = self.calls.len();
        let result = match outcome {
            Ok(s) => s,
            Err(e) => crate::screen_agent_v2::tool_failure_result(e.as_str()),
        };
        let summary = task_complete_summary(result.as_str());
        let m = tool_message(self.calls[i].id.as_str(), result.as_str());
        append_message(&mut self.messages, &mut self.session, m);
        match summary {
            Some(s) => {
                self.final_result = s.clone();
                self.phase = Phase::Finished;
                let body = s.clone();
                TaskAction::Finish {
                    result: TaskResult::Completed(s),
                    notice: Notice { title: String::from_str("✅ 任务已完成"), body },
                }
            },
            None => {
                self.next_call = i + 1;
                self.phase = Phase::RunningTools;
                TaskAction::NextCall { pause: i + 1 < n }
            },
        }
    }

    /// One step of the task loop: takes in what the outside world reported
    /// and says what to do next.
    pub fn step(&mut self, event: TaskEvent) -> (a: TaskAction)
        requires
            old(self).wf(),
            old(self).expects(event),
            old(self).round < usize::MAX,
        ensures
            final(self).wf(),
            stepped(*old(self), event, *final(self), a),
    {
        match event {
            TaskEvent::Proceed => {
                if matches!(self.phase, Phase::RoundStart) {
                    self.start_round()
                } else {
                    self.advance_call()
                }
            },
            TaskEvent::Captured { screenshot_base64, unchanged, focused_app } => {
                self.on_captured(screenshot_base64, unchanged, focused_app)
            },
            TaskEvent::Shortcuts(items) => self.on_shortcuts(items),
            TaskEvent::ApiError { status, body } => self.on_api_error(status, body),
            TaskEvent::Reply { message, arguments } => self.on_reply(message, arguments),
            TaskEvent::ToolDone(outcome) => self.on_tool_done(outcome),
        }
    }
}

} // verus!
