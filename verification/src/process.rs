//! Finding the process of an application by name: in the output of
//! `ps -axo pid=,comm=`, or through AppleScript.
use vstd::prelude::*;
use crate::stream::opt_view;
use crate::text::{
    chars_of, concat3, contains_exec, contains_seq, ends_with_seq, is_ws, is_ws_char, parse_i32,
    parse_i32_spec, split_at_char, split_on_char, string_from_chars, string_of, string_views,
    trim, trim_string,
};

verus! {

/// What `str::to_lowercase` makes of a text (Unicode lower case mapping,
/// context included).
pub uninterp spec fn lowercase_of(s: Seq<char>) -> Seq<char>;

/// What `Path::file_name` gives for a path: its last normal component.
pub uninterp spec fn file_name_of(path: Seq<char>) -> Option<Seq<char>>;

/// `str::to_lowercase`: the result is `lowercase_of` the text.
#[verifier::external_body]
pub(crate) fn to_lowercase(s: &str) -> (r: String)
    ensures
        r@ == lowercase_of(s@),
{
    s.to_lowercase()
}

/// `Path::file_name` of a path given as text: the result is `file_name_of`
/// the path (a file name of a path that is a `str` is valid UTF-8).
#[verifier::external_body]
pub(crate) fn path_file_name(path: &str) -> (r: Option<String>)
    ensures
        opt_view(r) == file_name_of(path@),
{
    match std::path::Path::new(path).file_name() {
        Some(name) => Some(name.to_string_lossy().into_owned()),
        None => None,
    }
}

/// Why the process of an application could not be looked for.
pub enum ProcessLookupError {
    /// The application name is empty once trimmed and stripped of `.app`.
    EmptyAppName,
}

/// `s` without any number of `suffix` at its end (what
/// `str::trim_end_matches` with a text does).
pub open spec fn trim_end_suffix(s: Seq<char>, suffix: Seq<char>) -> Seq<char>
    decreases s.len(),
{
    if suffix.len() > 0 && ends_with_seq(s, suffix) {
        trim_end_suffix(s.take(s.len() - suffix.len()), suffix)
    } else {
        s
    }
}

/// `s` without its spaces.
pub open spec fn without_spaces(s: Seq<char>) -> Seq<char>
    decreases s.len(),
{
    if s.len() == 0 {
        Seq::empty()
    } else if s.last() == ' ' {
        without_spaces(s.drop_last())
    } else {
        without_spaces(s.drop_last()).push(s.last())
    }
}

/// The name by which an application's process is looked for: trimmed,
/// stripped of `.app`, in lower case.
pub open spec fn match_key(app_name: Seq<char>) -> Seq<char> {
    lowercase_of(trim_end_suffix(trim(app_name), ".app"@))
}

/// The position of the first whitespace character of `t`, if any.
pub open spec fn first_ws(t: Seq<char>) -> Option<int> {
    if exists|i: int| 0 <= i < t.len() && is_ws(t[i]) {
        Some(choose|i: int| 0 <= i < t.len() && is_ws(t[i]) && forall|j: int| 0 <= j < i ==> !is_ws(t[j]))
    } else {
        None
    }
}

/// What a line of `ps -axo pid=,comm=` gives: the trimmed line splits at
/// its first whitespace into a pid that parses as `i32` and a command path;
/// the executable is the path's file name (the path itself where it has
/// none), in lower case.
pub open spec fn process_entry(line: Seq<char>) -> Option<(i32, Seq<char>)> {
    let t = trim(line);
    match first_ws(t) {
        None => None,
        Some(k) => match parse_i32_spec(t.take(k)) {
            None => None,
            Some(pid) => {
                let path = t.skip(k + 1);
                Some(
                    (
                        pid,
                        lowercase_of(
                            match file_name_of(path) {
                                Some(f) => f,
                                None => path,
                            },
                        ),
                    ),
                )
            },
        },
    }
}

/// An executable matches the key exactly.
pub open spec fn exact_match(exe: Seq<char>, key: Seq<char>) -> bool {
    exe == key
}

/// An executable matches the key once both lose their spaces.
pub open spec fn spaceless_match(exe: Seq<char>, key: Seq<char>) -> bool {
    without_spaces(exe) == without_spaces(key)
}

/// An executable's name contains the key.
pub open spec fn contains_match(exe: Seq<char>, key: Seq<char>) -> bool {
    contains_seq(exe, key)
}

/// The pid of the first line whose executable matches the key in the way
/// `kind` names (0 exact, 1 without spaces, 2 containing).
pub open spec fn first_match(lines: Seq<Seq<char>>, key: Seq<char>, kind: int) -> Option<i32>
    decreases lines.len(),
{
    if lines.len() == 0 {
        None
    } else {
        match first_match(lines.drop_last(), key, kind) {
            Some(p) => Some(p),
            None => match process_entry(lines.last()) {
                Some((pid, exe)) => if (kind == 0 && exact_match(exe, key)) || (kind == 1
                    && spaceless_match(exe, key)) || (kind == 2 && contains_match(exe, key)) {
                    Some(pid)
                } else {
                    None
                },
                None => None,
            },
        }
    }
}

/// The pid that the process list gives for the key: the first exact match,
/// else the first match without spaces, else the first containing match.
pub open spec fn pid_in_list(ps_output: Seq<char>, key: Seq<char>) -> Option<i32> {
    let lines = split_at_char(ps_output, '\n');
    match first_match(lines, key, 0) {
        Some(p) => Some(p),
        None => match first_match(lines, key, 1) {
            Some(p) => Some(p),
            None => first_match(lines, key, 2),
        },
    }
}

proof fn lemma_first_match_prefix(lines: Seq<Seq<char>>, key: Seq<char>, kind: int, i: int)
    requires
        0 <= i <= lines.len(),
        first_match(lines.take(i), key, kind) is Some,
    ensures
        first_match(lines, key, kind) == first_match(lines.take(i), key, kind),
    decreases lines.len() - i,
{
    if i < lines.len() {
        assert(lines.take(i + 1).drop_last() =~= lines.take(i));
        assert(first_match(lines.take(i + 1), key, kind) == first_match(lines.take(i), key, kind));
        lemma_first_match_prefix(lines, key, kind, i + 1);
    } else {
        assert(lines.take(i) =~= lines);
    }
}

/// The line names an executable that matches `key` in the way `kind`
/// names (0 exact, 1 without spaces, 2 containing).
spec fn line_matches(line: Seq<char>, key: Seq<char>, kind: int) -> bool {
    match process_entry(line) {
        Some((pid, exe)) => (kind == 0 && exe == key) || (kind == 1 && without_spaces(exe)
            == without_spaces(key)) || (kind == 2 && contains_seq(exe, key)),
        None => false,
    }
}

/// The first matching line decides the match of its kind.
proof fn lemma_first_match_at(lines: Seq<Seq<char>>, key: Seq<char>, kind: int, i: int)
    requires
        0 <= i < lines.len(),
        line_matches(lines[i], key, kind),
        forall|j: int| 0 <= j < i ==> !line_matches(#[trigger] lines[j], key, kind),
    ensures
        first_match(lines, key, kind) == match process_entry(lines[i]) {
            Some(e) => Some(e.0),
            None => None,
        },
    decreases lines.len(),
{
    if i < lines.len() - 1 {
        lemma_first_match_at(lines.drop_last(), key, kind, i);
    } else {
        lemma_no_match(lines.drop_last(), key, kind);
    }
}

/// Without a matching line there is no match of that kind.
proof fn lemma_no_match(lines: Seq<Seq<char>>, key: Seq<char>, kind: int)
    requires
        forall|j: int| 0 <= j < lines.len() ==> !line_matches(#[trigger] lines[j], key, kind),
    ensures
        first_match(lines, key, kind) is None,
    decreases lines.len(),
{
    if lines.len() > 0 {
        assert(!line_matches(lines[lines.len() - 1], key, kind));
        lemma_no_match(lines.drop_last(), key, kind);
    }
}

/// Where some line's executable is exactly the key, the pid found is that
/// of the first such line, whatever other lines contain the key or match it
/// without spaces.
pub proof fn law_exact_executable_wins(ps_output: Seq<char>, key: Seq<char>, i: int, pid: i32)
    requires
        0 <= i < split_at_char(ps_output, '\n').len(),
        process_entry(split_at_char(ps_output, '\n')[i]) == Some((pid, key)),
        forall|j: int|
            0 <= j < i ==> !(#[trigger] process_entry(split_at_char(ps_output, '\n')[j]) matches Some(
                (p, e),
            ) && e == key),
    ensures
        pid_in_list(ps_output, key) == Some(pid),
{
    let lines = split_at_char(ps_output, '\n');
    assert forall|j: int| 0 <= j < i implies !line_matches(#[trigger] lines[j], key, 0) by {
        assert(!(process_entry(lines[j]) matches Some((p, e)) && e == key));
    }
    lemma_first_match_at(lines, key, 0, i);
}

/// Where no executable is exactly the key, the first whose name equals the
/// key once both lose their spaces gives the pid, whatever other lines
/// contain the key.
pub proof fn law_spaceless_match_comes_next(ps_output: Seq<char>, key: Seq<char>, i: int, pid: i32, exe: Seq<char>)
    requires
        0 <= i < split_at_char(ps_output, '\n').len(),
        process_entry(split_at_char(ps_output, '\n')[i]) == Some((pid, exe)),
        without_spaces(exe) == without_spaces(key),
        forall|j: int|
            0 <= j < split_at_char(ps_output, '\n').len() ==> !(#[trigger] process_entry(
                split_at_char(ps_output, '\n')[j],
            ) matches Some((p, e)) && e == key),
        forall|j: int|
            0 <= j < i ==> !(#[trigger] process_entry(split_at_char(ps_output, '\n')[j]) matches Some(
                (p, e),
            ) && without_spaces(e) == without_spaces(key)),
    ensures
        pid_in_list(ps_output, key) == Some(pid),
{
    let lines = split_at_char(ps_output, '\n');
    assert forall|j: int| 0 <= j < lines.len() implies !line_matches(#[trigger] lines[j], key, 0) by {
        assert(!(process_entry(lines[j]) matches Some((p, e)) && e == key));
    }
    lemma_no_match(lines, key, 0);
    assert forall|j: int| 0 <= j < i implies !line_matches(#[trigger] lines[j], key, 1) by {
        assert(!(process_entry(lines[j]) matches Some((p, e)) && without_spaces(e) == without_spaces(key)));
    }
    lemma_first_match_at(lines, key, 1, i);
}

/// Only where no executable matches the key exactly or without spaces does
/// a name that merely contains the key count: then the first such line
/// gives the pid.
pub proof fn law_containing_match_comes_last(ps_output: Seq<char>, key: Seq<char>, i: int, pid: i32, exe: Seq<char>)
    requires
        0 <= i < split_at_char(ps_output, '\n').len(),
        process_entry(split_at_char(ps_output, '\n')[i]) == Some((pid, exe)),
        contains_seq(exe, key),
        forall|j: int|
            0 <= j < split_at_char(ps_output, '\n').len() ==> !(#[trigger] process_entry(
                split_at_char(ps_output, '\n')[j],
            ) matches Some((p, e)) && (e == key || without_spaces(e) == without_spaces(key))),
        forall|j: int|
            0 <= j < i ==> !(#[trigger] process_entry(split_at_char(ps_output, '\n')[j]) matches Some(
                (p, e),
            ) && contains_seq(e, key)),
    ensures
        pid_in_list(ps_output, key) == Some(pid),
{
    let lines = split_at_char(ps_output, '\n');
    assert forall|j: int| 0 <= j < lines.len() implies !line_matches(#[trigger] lines[j], key, 0)
        && !line_matches(lines[j], key, 1) by {
        assert(!(process_entry(lines[j]) matches Some((p, e)) && (e == key || without_spaces(e)
            == without_spaces(key))));
    }
    lemma_no_match(lines, key, 0);
    lemma_no_match(lines, key, 1);
    assert forall|j: int| 0 <= j < i implies !line_matches(#[trigger] lines[j], key, 2) by {
        assert(!(process_entry(lines[j]) matches Some((p, e)) && contains_seq(e, key)));
    }
    lemma_first_match_at(lines, key, 2, i);
}

/// `s` without its spaces.
fn remove_spaces(s: &Vec<char>) -> (r: Vec<char>)
    ensures
        r@ == without_spaces(s@),
{
    let mut r: Vec<char> = Vec::new();
    let n = s.len();
    for i in 0..n
        invariant
            n == s@.len(),
            r@ == without_spaces(s@.take(i as int)),
    {
        proof {
            assert(s@.take(i + 1).drop_last() =~= s@.take(i as int));
            assert(s@.take(i + 1).last() == s@[i as int]);
        }
        if s[i] != ' ' {
            r.push(s[i]);
        }
    }
    assert(s@.take(n as int) =~= s@);
    r
}

/// The name by which the process of `app_name` is looked for; an empty one
/// is an error.
pub fn process_match_key(app_name: &str) -> (r: Result<String, ProcessLookupError>)
    ensures
        match r {
            Ok(k) => k@ == match_key(app_name@) && k@.len() > 0,
            Err(_) => match_key(app_name@).len() == 0,
        },
{
    let t = trim_string(app_name);
    let stripped = crate::app_manager::strip_app_suffix(t.as_str());
    let key = to_lowercase(stripped.as_str());
    if key.as_str().unicode_len() == 0 {
        Err(ProcessLookupError::EmptyAppName)
    } else {
        Ok(key)
    }
}

/// The pid and executable name that a line of the process list gives.
pub fn process_entry_exec(line: &str) -> (r: Option<(i32, String)>)
    ensures
        match r {
            Some((pid, exe)) => process_entry(line@) == Some((pid, exe@)),
            None => process_entry(line@).is_none(),
        },
{
    let t = trim_string(line);
    let v = chars_of(t.as_str());
    let n = v.len();
    let mut k: usize = 0;
    while k < n && !is_ws_char(v[k])
        invariant
            k <= n == v@.len(),
            forall|j: int| 0 <= j < k ==> !is_ws(v@[j]),
        decreases n - k,
    {
        k = k + 1;
    }
    if k == n {
        assert(first_ws(v@).is_none());
        return None;
    }
    assert(first_ws(v@) == Some(k as int)) by {
        let w = choose|i: int| 0 <= i < v@.len() && is_ws(v@[i]) && forall|j: int| 0 <= j < i ==> !is_ws(v@[j]);
        assert(0 <= w < v@.len() && is_ws(v@[w]) && forall|j: int| 0 <= j < w ==> !is_ws(v@[j]));
        if w < k {
        } else if w > k {
        }
    }
    let pid_text = string_from_chars(v.as_slice(), 0, k);
    assert(v@.subrange(0, k as int) =~= v@.take(k as int));
    let pid = match parse_i32(pid_text.as_str()) {
        Some(p) => p,
        None => return None,
    };
    let path = string_from_chars(v.as_slice(), k + 1, n);
    assert(v@.subrange(k + 1, n as int) =~= v@.skip(k + 1));
    let exe_raw = match path_file_name(path.as_str()) {
        Some(f) => f,
        None => path,
    };
    let exe = to_lowercase(exe_raw.as_str());
    Some((pid, exe))
}

/// The pid of `key`'s process in the output of `ps -axo pid=,comm=`: the
/// first line whose executable is the key, else the first whose executable
/// equals it once both lose their spaces, else the first whose executable
/// contains it.
pub fn find_pid_in_process_list(ps_output: &str, key: &str) -> (r: Option<i32>)
    ensures
        r == pid_in_list(ps_output@, key@),
{
    let lines = split_on_char(ps_output, '\n');
    let ghost ls = string_views(lines@);
    let kv = chars_of(key);
    let key_nospace = remove_spaces(&kv);
    let mut spaceless: Option<i32> = None;
    let mut containing: Option<i32> = None;
    let n = lines.len();
    for i in 0..n
        invariant
            n == lines@.len(),
            ls == string_views(lines@),
            ls == split_at_char(ps_output@, '\n'),
            kv@ == key@,
            key_nospace@ == without_spaces(key@),
            first_match(ls.take(i as int), key@, 0).is_none(),
            spaceless == first_match(ls.take(i as int), key@, 1),
            containing == first_match(ls.take(i as int), key@, 2),
    {
        assert(ls.take(i + 1).drop_last() =~= ls.take(i as int));
        assert(ls.take(i + 1).last() == lines@[i as int]@);
        match process_entry_exec(lines[i].as_str()) {
            Some((pid, exe)) => {
                let ev = chars_of(exe.as_str());
                let exact = crate::json::str_eq(exe.as_str(), key);
                if exact {
                    proof {
                        lemma_first_match_prefix(ls, key@, 0, i + 1);
                    }
                    return Some(pid);
                }
                let ev_nospace = remove_spaces(&ev);
                let same_nospace = {
                    let a = string_of(&ev_nospace);
                    let b = string_of(&key_nospace);
                    a == b
                };
                if same_nospace && spaceless.is_none() {
                    spaceless = Some(pid);
                }
                if contains_exec(&ev, &kv) && containing.is_none() {
                    containing = Some(pid);
                }
            },
            None => {},
        }
    }
    assert(ls.take(n as int) =~= ls);
    match spaceless {
        Some(p) => Some(p),
        None => containing,
    }
}

/// The AppleScript that asks System Events for the pid of `app_name`'s
/// process: none where the name is empty once trimmed and stripped of
/// `.app`; backslashes and quotes in the name are escaped.
pub open spec fn pid_script(app_name: Seq<char>) -> Option<Seq<char>> {
    let target = trim(trim_end_suffix(trim(app_name), ".app"@));
    if target.len() == 0 {
        None
    } else {
        Some(
            "tell application \"System Events\" to get unix id of process \""@ + escape_applescript(
                target,
            ) + "\""@,
        )
    }
}

/// `s` with each backslash doubled and each quote preceded by a backslash.
pub open spec fn escape_applescript(s: Seq<char>) -> Seq<char>
    decreases s.len(),
{
    if s.len() == 0 {
        Seq::empty()
    } else {
        let c = s.last();
        escape_applescript(s.drop_last()) + if c == '\\' {
            seq!['\\', '\\']
        } else if c == '"' {
            seq!['\\', '"']
        } else {
            seq![c]
        }
    }
}

/// The AppleScript that asks for the pid of `app_name`'s process.
pub fn applescript_pid_query(app_name: &str) -> (r: Option<String>)
    ensures
        opt_view(r) == pid_script(app_name@),
{
    let t = trim_string(app_name);
    let stripped = crate::app_manager::strip_app_suffix(t.as_str());
    let target = trim_string(stripped.as_str());
    let v = chars_of(target.as_str());
    if v.len() == 0 {
        return None;
    }
    let mut e: Vec<char> = Vec::new();
    let n = v.len();
    for i in 0..n
        invariant
            n == v@.len(),
            e@ == escape_applescript(v@.take(i as int)),
    {
        assert(v@.take(i + 1).drop_last() =~= v@.take(i as int));
        assert(v@.take(i + 1).last() == v@[i as int]);
        let c = v[i];
        if c == '\\' {
            e.push('\\');
            e.push('\\');
        } else if c == '"' {
            e.push('\\');
            e.push('"');
        } else {
            e.push(c);
        }
        assert(e@ =~= escape_applescript(v@.take(i + 1)));
    }
    assert(v@.take(n as int) =~= v@);
    let escaped = string_of(&e);
    Some(
        concat3(
            "tell application \"System Events\" to get unix id of process \"",
            escaped.as_str(),
            "\"",
        ),
    )
}

/// The pid that the AppleScript query printed: its trimmed output parsed as
/// an `i32`.
pub fn parse_applescript_pid(output: &str) -> (r: Option<i32>)
    ensures
        r == parse_i32_spec(trim(output@)),
{
    let t = trim_string(output);
    parse_i32(t.as_str())
}

} // verus!
