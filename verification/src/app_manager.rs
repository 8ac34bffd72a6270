//! Application management decisions: reading the lists that `ls` and
//! AppleScript print, the names handed to `pkill` and AppleScript, and when
//! an application counts as focused.
use vstd::prelude::*;
use crate::process::{lowercase_of, to_lowercase, trim_end_suffix};
use crate::text::{
    chars_of, concat2, concat3, contains_exec, contains_seq, split_at_char, split_on_char, string_views,
    trim, trim_string,
};

verus! {

/// The trimmed pieces that are not empty, in order.
pub open spec fn kept_names(pieces: Seq<Seq<char>>) -> Seq<Seq<char>>
    decreases pieces.len(),
{
    if pieces.len() == 0 {
        Seq::empty()
    } else {
        let rest = kept_names(pieces.drop_last());
        if trim(pieces.last()).len() > 0 {
            rest.push(trim(pieces.last()))
        } else {
            rest
        }
    }
}

/// The trimmed pieces of `pieces` that are not empty.
fn keep_names(pieces: &Vec<String>) -> (r: Vec<String>)
    ensures
        string_views(r@) == kept_names(string_views(pieces@)),
{
    let mut r: Vec<String> = Vec::new();
    let n = pieces.len();
    for i in 0..n
        invariant
            n == pieces@.len(),
            string_views(r@) == kept_names(string_views(pieces@.take(i as int))),
    {
        assert(string_views(pieces@.take(i + 1)).drop_last() =~= string_views(
            pieces@.take(i as int),
        ));
        assert(string_views(pieces@.take(i + 1)).last() == pieces@[i as int]@);
        let t = trim_string(pieces[i].as_str());
        if t.as_str().unicode_len() > 0 {
            let ghost before = string_views(r@);
            r.push(t);
            assert(string_views(r@) =~= before.push(t@));
        }
    }
    assert(pieces@.take(n as int) =~= pieces@);
    r
}

/// The installed applications that `ls /Applications` printed: one per
/// line, trimmed, blank lines left out.
pub fn parse_application_list(stdout: &str) -> (r: Vec<String>)
    ensures
        string_views(r@) == kept_names(split_at_char(stdout@, '\n')),
{
    let lines = split_on_char(stdout, '\n');
    keep_names(&lines)
}

/// The running applications that AppleScript printed: the trimmed output
/// split at commas, each name trimmed, empty names left out.
pub fn parse_running_applications(stdout: &str) -> (r: Vec<String>)
    ensures
        string_views(r@) == kept_names(split_at_char(trim(stdout@), ',')),
{
    let t = trim_string(stdout);
    let parts = split_on_char(t.as_str(), ',');
    keep_names(&parts)
}

/// `s` without any number of `.app` at its end.
pub fn strip_app_suffix(s: &str) -> (r: String)
    ensures
        r@ == trim_end_suffix(s@, ".app"@),
{
    proof {
        reveal_strlit(".app");
    }
    let v = chars_of(s);
    let mut end = v.len();
    assert(v@.take(end as int) =~= v@);
    while end >= 4 && v[end - 4] == '.' && v[end - 3] == 'a' && v[end - 2] == 'p' && v[end - 1]
        == 'p'
        invariant
            end <= v@.len(),
            trim_end_suffix(s@, ".app"@) == trim_end_suffix(v@.take(end as int), ".app"@),
            v@ == s@,
        decreases end,
    {
        proof {
            reveal_strlit(".app");
        }
        let ghost t = v@.take(end as int);
        assert(t.subrange(t.len() - 4, t.len() as int) =~= ".app"@);
        assert(t.take(t.len() - 4) =~= v@.take(end - 4));
        end = end - 4;
    }
    let ghost t = v@.take(end as int);
    assert(!crate::text::ends_with_seq(t, ".app"@)) by {
        if crate::text::ends_with_seq(t, ".app"@) {
            let w = t.subrange(t.len() - 4, t.len() as int);
            assert(w[0] == t[t.len() - 4]);
            assert(w[1] == t[t.len() - 3]);
            assert(w[2] == t[t.len() - 2]);
            assert(w[3] == t[t.len() - 1]);
        }
    }
    crate::text::string_from_chars(v.as_slice(), 0, end)
}

/// The process name that `pkill -x` is given to close `app_name`.
pub fn close_target(app_name: &str) -> (r: String)
    ensures
        r@ == trim_end_suffix(app_name@, ".app"@),
{
    strip_app_suffix(app_name)
}

/// Closing succeeded: `pkill` succeeded, or it found no process (exit
/// code 1).
pub fn close_succeeded(success: bool, exit_code: Option<i32>) -> (r: bool)
    ensures
        r == (success || exit_code == Some(1i32)),
{
    success || match exit_code {
        Some(c) => c == 1,
        None => false,
    }
}

/// The application name that focusing works with: trimmed and stripped of
/// `.app`.
pub fn focus_target(app_name: &str) -> (r: String)
    ensures
        r@ == trim_end_suffix(trim(app_name@), ".app"@),
{
    let t = trim_string(app_name);
    strip_app_suffix(t.as_str())
}

/// The AppleScript that activates the application `name`.
pub open spec fn activate_script(name: Seq<char>) -> Seq<char> {
    "tell application \""@ + name + "\" to activate"@
}

/// The AppleScript that activates the application `name`.
pub fn activate_script_for(name: &str) -> (r: String)
    ensures
        r@ == activate_script(name@),
{
    concat3("tell application \"", name, "\" to activate")
}

/// The frontmost application, as AppleScript printed it, counts as
/// `app_name`: in lower case and trimmed, either name contains the other.
pub open spec fn focused_matches(frontmost: Seq<char>, app_name: Seq<char>) -> bool {
    let current = lowercase_of(trim(frontmost));
    let target = lowercase_of(trim(app_name));
    contains_seq(current, target) || contains_seq(target, current)
}

/// Whether the frontmost application counts as `app_name`.
pub fn is_focused(frontmost: &str, app_name: &str) -> (r: bool)
    ensures
        r == focused_matches(frontmost@, app_name@),
{
    let a = trim_string(frontmost);
    let b = trim_string(app_name);
    let current = to_lowercase(a.as_str());
    let target = to_lowercase(b.as_str());
    let cv = chars_of(current.as_str());
    let tv = chars_of(target.as_str());
    contains_exec(&cv, &tv) || contains_exec(&tv, &cv)
}

/// What has happened so far while focusing an application.
pub enum FocusStep {
    /// The AppleScript `activate` ran; whether it exited successfully.
    Activated(bool),
    /// After the pause that follows `activate`: whether the application is
    /// in front.
    CheckedAfterActivate(bool),
    /// `open -a` ran; whether it exited successfully.
    Opened(bool),
    /// After the pause that follows `open -a`: whether the application is in
    /// front.
    CheckedAfterOpen(bool),
}

/// What focusing an application does next.
pub enum FocusAction {
    /// Pause half a second, then report whether the application is in
    /// front, as `CheckedAfterOpen` where `after_open`, else as
    /// `CheckedAfterActivate`.
    CheckFocus { after_open: bool },
    /// Run `open -a` on the application and report `Opened`.
    Open,
    /// Maximize the front window; focusing succeeded.
    Maximize,
    /// Focusing failed, for this reason.
    Fail(String),
}

/// The next thing to do in focusing the application `name`: a failed
/// command ends it with its error; after a successful command the focus is
/// checked; where the application is in front its window is maximized;
/// where `activate` did not bring it in front, `open -a` is tried, and where
/// that did not either, focusing fails.
pub fn focus_next(step: &FocusStep, name: &str) -> (a: FocusAction)
    ensures
        match *step {
            FocusStep::Activated(ok) => if ok {
                a matches FocusAction::CheckFocus { after_open } && !after_open
            } else {
                a matches FocusAction::Fail(e) && e@ == "AppleScript activate 执行失败: "@ + name@
            },
            FocusStep::CheckedAfterActivate(front) => if front {
                a is Maximize
            } else {
                a is Open
            },
            FocusStep::Opened(ok) => if ok {
                a matches FocusAction::CheckFocus { after_open } && after_open
            } else {
                a matches FocusAction::Fail(e) && e@ == "open -a 执行失败: "@ + name@
            },
            FocusStep::CheckedAfterOpen(front) => if front {
                a is Maximize
            } else {
                a matches FocusAction::Fail(e) && e@ == "无法聚焦应用 '"@ + name@ + "'，两种方式均失败"@
            },
        },
{
    match step {
        FocusStep::Activated(ok) => if *ok {
            FocusAction::CheckFocus { after_open: false }
        } else {
            FocusAction::Fail(concat2("AppleScript activate 执行失败: ", name))
        },
        FocusStep::CheckedAfterActivate(front) => if *front {
            FocusAction::Maximize
        } else {
            FocusAction::Open
        },
        FocusStep::Opened(ok) => if *ok {
            FocusAction::CheckFocus { after_open: true }
        } else {
            FocusAction::Fail(concat2("open -a 执行失败: ", name))
        },
        FocusStep::CheckedAfterOpen(front) => if *front {
            FocusAction::Maximize
        } else {
            FocusAction::Fail(concat3("无法聚焦应用 '", name, "'，两种方式均失败"))
        },
    }
}

} // verus!
