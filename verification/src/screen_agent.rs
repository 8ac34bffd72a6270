//! The first agent, which manages applications with a tool-calling model:
//! what it tells the model each round and what it reports at the end.
use vstd::prelude::*;
use crate::text::{concat2, concat3, decimal, u64_to_decimal};

verus! {

/// The agent that manages applications through a tool-calling model.
pub struct ScreenAgent;

/// What the agent tells the model about its role, its tools and how to work.
pub const PREAMBLE: &'static str = r#"你是一个 macOS 应用管理助手。你可以看到用户的屏幕截图，并通过工具来管理应用程序完成用户的任务。

## 可用工具
- open_application(app_name) - 打开指定应用程序
- close_application(app_name) - 关闭指定应用程序
- focus_application(app_name) - 将指定应用切换到前台并聚焦
- list_applications() - 列出系统中已安装的应用程序
- list_running_applications() - 列出当前正在运行的应用程序
- task_complete(summary) - 任务完成时调用，传入完成摘要

## 工作方式
1. 每轮你会收到当前屏幕截图和任务指令
2. 分析任务需求，选择合适的工具执行
3. 任务完成后必须调用 task_complete
"#;

/// The number of rounds the agent works on a task at most.
pub open spec fn max_rounds() -> nat {
    20
}

/// What the model is told in round `round`: the task, and from the second
/// round on the model's previous reply.
pub open spec fn round_prompt(task_goal: Seq<char>, round: nat, last_response: Seq<char>) -> Seq<
    char,
> {
    if round == 1 {
        "任务目标："@ + task_goal + "\n\n请分析当前屏幕截图，执行下一步操作。"@
    } else {
        "任务目标："@ + task_goal + "\n上一轮操作结果："@ + last_response
            + "\n\n请分析当前屏幕截图，继续执行下一步操作。如果任务已完成，请调用 task_complete。"@
    }
}

/// What the agent reports when the rounds run out.
pub open spec fn rounds_exhausted(last_response: Seq<char>) -> Seq<char> {
    "已达到最大轮次 "@ + decimal(max_rounds()) + "，最后回复: "@ + last_response
}

impl ScreenAgent {
    /// The number of rounds the agent works on a task at most.
    pub fn max_rounds() -> (n: usize)
        ensures
            n == max_rounds(),
    {
        20
    }

    /// What the model is told in round `round`.
    pub fn round_prompt(task_goal: &str, round: usize, last_response: &str) -> (s: String)
        ensures
            s@ == round_prompt(task_goal@, round as nat, last_response@),
    {
        if round == 1 {
            concat3("任务目标：", task_goal, "\n\n请分析当前屏幕截图，执行下一步操作。")
        } else {
            let a = concat3("任务目标：", task_goal, "\n上一轮操作结果：");
            concat3(
                a.as_str(),
                last_response,
                "\n\n请分析当前屏幕截图，继续执行下一步操作。如果任务已完成，请调用 task_complete。",
            )
        }
    }

    /// What the agent reports when the rounds run out.
    pub fn rounds_exhausted_report(last_response: &str) -> (s: String)
        ensures
            s@ == rounds_exhausted(last_response@),
    {
        let d = u64_to_decimal(20);
        let a = concat3("已达到最大轮次 ", d.as_str(), "，最后回复: ");
        concat2(a.as_str(), last_response)
    }
}

/// What the first screen agent does next.
pub enum FirstAgentAction {
    /// After a pause of half a second where `pause` says so, capture the
    /// screen and send this prompt with it as round `round`.
    Round { round: usize, prompt: String, pause: bool },
    /// After a pause of half a second where `pause` says so, end the task
    /// with `result`.
    Finish { result: String, pause: bool },
}

/// The next step of the first screen agent, after `rounds_done` rounds
/// (0 before the first), the last of which ended with the reply
/// `last_response` and, where `completed`, with a call of `task_complete`:
/// a completed task ends at once with that reply; a task whose rounds have
/// run out ends with the report of it, after the pause that follows every
/// round; otherwise the next round follows, after that pause unless it is
/// the first.
pub fn first_agent_next(task_goal: &str, rounds_done: usize, completed: bool, last_response: &str) -> (a: FirstAgentAction)
    ensures
        rounds_done > 0 && completed ==> (a matches FirstAgentAction::Finish { result, pause }
            && result@ == last_response@ && !pause),
        !(rounds_done > 0 && completed) && rounds_done >= max_rounds() ==> (
        a matches FirstAgentAction::Finish { result, pause } && result@ == rounds_exhausted(
            last_response@,
        ) && pause == (rounds_done > 0)),
        !(rounds_done > 0 && completed) && rounds_done < max_rounds() ==> (
        a matches FirstAgentAction::Round { round, prompt, pause } && round == rounds_done + 1
            && prompt@ == round_prompt(task_goal@, (rounds_done + 1) as nat, last_response@)
            && pause == (rounds_done > 0)),
{
    if rounds_done > 0 && completed {
        FirstAgentAction::Finish { result: string_copy(last_response), pause: false }
    } else if rounds_done >= ScreenAgent::max_rounds() {
        FirstAgentAction::Finish {
            result: ScreenAgent::rounds_exhausted_report(last_response),
            pause: rounds_done > 0,
        }
    } else {
        let round = rounds_done + 1;
        FirstAgentAction::Round {
            round,
            prompt: ScreenAgent::round_prompt(task_goal, round, last_response),
            pause: rounds_done > 0,
        }
    }
}

/// A copy of `s`.
fn string_copy(s: &str) -> (r: String)
    ensures
        r@ == s@,
{
    String::from_str(s)
}

} // verus!
