//! A conversation with the model as it is kept on disk: the messages in
//! text form (screenshots reduced to a marker), a title taken from the
//! first user message, and the times of creation and of the last change.
use vstd::prelude::*;
use crate::json::{
    as_array_spec, as_str_spec, get_opt, get_spec, get_str, get_str_or, to_owned_string,
    JsonValue,
};
use crate::text::{
    concat3, is_blank, is_blank_str, take_chars, take_chars_string, trim, trim_string,
};

verus! {

/// A stored conversation.
pub struct Session {
    pub id: String,
    pub title: String,
    pub created_at: String,
    pub updated_at: String,
    pub messages: Vec<SessionMessage>,
}

/// One message of a stored conversation.
pub struct SessionMessage {
    pub role: String,
    pub content: String,
    pub tool_calls: Option<Vec<SessionToolCall>>,
    pub tool_call_id: Option<String>,
}

/// A tool call that an assistant message asked for.
pub struct SessionToolCall {
    pub id: String,
    pub name: String,
    pub arguments: String,
}

/// What the session list shows of a stored conversation.
pub struct SessionSummary {
    pub id: String,
    pub title: String,
    pub created_at: String,
    pub updated_at: String,
    pub message_count: usize,
}

/// The title of a conversation before its first user message.
pub open spec fn untitled() -> Seq<char> {
    "新会话"@
}

/// The title after a message with `role` and `content` is added: an
/// untitled conversation takes the first 50 characters of the trimmed text
/// of its first user message that is not blank.
pub open spec fn title_after(title: Seq<char>, role: Seq<char>, content: Seq<char>) -> Seq<char> {
    if title == untitled() && role == "user"@ && !is_blank(content) {
        take_chars(trim(content), 50)
    } else {
        title
    }
}

/// The text that one content item contributes: a marker for an image, the
/// item's text where it is not blank, nothing otherwise.
pub open spec fn item_text(item: JsonValue) -> Option<Seq<char>> {
    let t = match as_str_spec(get_spec(item, "type"@)) {
        Some(s) => s,
        None => Seq::empty(),
    };
    if t == "image_url"@ || t == "input_image"@ {
        Some("[screenshot]"@)
    } else {
        match as_str_spec(get_spec(item, "text"@)) {
            Some(x) => if !is_blank(x) {
                Some(x)
            } else {
                None
            },
            None => None,
        }
    }
}

/// The texts that the content items contribute, in order.
pub open spec fn item_texts(items: Seq<JsonValue>) -> Seq<Seq<char>>
    decreases items.len(),
{
    if items.len() == 0 {
        Seq::empty()
    } else {
        let rest = item_texts(items.drop_last());
        match item_text(items.last()) {
            Some(t) => rest.push(t),
            None => rest,
        }
    }
}

/// The parts joined with a newline between each two.
pub open spec fn join_lines(parts: Seq<Seq<char>>) -> Seq<char>
    decreases parts.len(),
{
    if parts.len() == 0 {
        Seq::empty()
    } else if parts.len() == 1 {
        parts[0]
    } else {
        join_lines(parts.drop_last()) + "\n"@ + parts.last()
    }
}

/// The text kept of a message's content: a string as it is, the texts of
/// an array's items one per line, and nothing for anything else.
pub open spec fn content_text(content: Option<JsonValue>) -> Seq<char> {
    match content {
        Some(JsonValue::String(s)) => s@,
        Some(JsonValue::Array(items)) => join_lines(item_texts(items@)),
        _ => Seq::empty(),
    }
}

/// The text under `key`, or nothing.
pub open spec fn str_or_empty(v: Option<JsonValue>) -> Seq<char> {
    match as_str_spec(v) {
        Some(s) => s,
        None => Seq::empty(),
    }
}

/// What a stored tool call holds of an API tool call: its id, and its
/// function's name and arguments, each empty where absent.
pub open spec fn tool_call_matches(t: SessionToolCall, call: JsonValue) -> bool {
    &&& t.id@ == str_or_empty(get_spec(call, "id"@))
    &&& t.name@ == str_or_empty(get_opt(get_spec(call, "function"@), "name"@))
    &&& t.arguments@ == str_or_empty(get_opt(get_spec(call, "function"@), "arguments"@))
}

/// A random version 4 UUID in its hyphenated form (`uuid::Uuid::new_v4`,
/// then `to_string`).
///
/// The contract claims the shape of the text: 36 characters, hyphens at
/// positions 8, 13, 18 and 23, and the version digit `4` at position 14.
/// The other digits are random and not stated.
#[verifier::external_body]
fn new_uuid_string() -> (s: String)
    ensures
        s@.len() == 36,
        s@[8] == '-' && s@[13] == '-' && s@[18] == '-' && s@[23] == '-',
        s@[14] == '4',
{
    uuid::Uuid::new_v4().to_string()
}

/// The current time in RFC 3339 form (`chrono::Utc::now`, then
/// `to_rfc3339`). It depends on the clock, so nothing is stated of it.
#[verifier::external_body]
fn now_rfc3339() -> (s: String) {
    chrono::Utc::now().to_rfc3339()
}

impl Session {
    /// A new, untitled conversation without messages, with a fresh random id
    /// and the current time as both its creation and its change time.
    pub fn new() -> (s: Session)
        ensures
            s.title@ == untitled(),
            s.messages@.len() == 0,
            s.created_at@ == s.updated_at@,
            s.id@.len() == 36,
            s.id@[14] == '4',
    {
        let now = now_rfc3339();
        Session {
            id: new_uuid_string(),
            title: String::from_str("新会话"),
            created_at: now.clone(),
            updated_at: now,
            messages: Vec::new(),
        }
    }

    /// Appends `msg`; the first user message that is not blank names an
    /// untitled conversation, and the change time becomes the current time.
    pub fn add_message(&mut self, msg: SessionMessage)
        ensures
            final(self).messages@ == old(self).messages@.push(msg),
            final(self).title@ == title_after(old(self).title@, msg.role@, msg.content@),
            final(self).id == old(self).id,
            final(self).created_at == old(self).created_at,
    {
        let is_untitled = {
            let t = String::from_str("新会话");
            self.title == t
        };
        let is_user = {
            let u = String::from_str("user");
            msg.role == u
        };
        if is_untitled && is_user {
            if !is_blank_str(msg.content.as_str()) {
                let trimmed = trim_string(msg.content.as_str());
                self.title = take_chars_string(trimmed.as_str(), 50);
            }
        }
        self.messages.push(msg);
        self.updated_at = now_rfc3339();
    }

    /// What the session list shows of this conversation.
    pub fn summary(&self) -> (s: SessionSummary)
        ensures
            s.id == self.id,
            s.title == self.title,
            s.created_at == self.created_at,
            s.updated_at == self.updated_at,
            s.message_count == self.messages@.len(),
    {
        SessionSummary {
            id: self.id.clone(),
            title: self.title.clone(),
            created_at: self.created_at.clone(),
            updated_at: self.updated_at.clone(),
            message_count: self.messages.len(),
        }
    }
}

proof fn lemma_join_push(parts: Seq<Seq<char>>, p: Seq<char>)
    ensures
        join_lines(parts.push(p)) == if parts.len() == 0 {
            p
        } else {
            join_lines(parts) + "\n"@ + p
        },
{
    assert(parts.push(p).drop_last() =~= parts);
}

/// The text that one content item contributes, if any.
fn item_text_exec(item: &JsonValue) -> (r: Option<String>)
    ensures
        match r {
            Some(s) => item_text(*item) == Some(s@),
            None => item_text(*item).is_none(),
        },
{
    proof {
        reveal_strlit("");
    }
    let t = get_str_or(item, "type", "");
    let is_image = {
        let a = String::from_str("image_url");
        let b = String::from_str("input_image");
        t == a || t == b
    };
    let ghost tt = match as_str_spec(get_spec(*item, "type"@)) {
        Some(s) => s,
        None => Seq::<char>::empty(),
    };
    assert(t@ == tt);
    if is_image {
        assert(tt == "image_url"@ || tt == "input_image"@);
        return Some(String::from_str("[screenshot]"));
    }
    match get_str(item, "text") {
        Some(x) => if !is_blank_str(x) {
            Some(to_owned_string(x))
        } else {
            None
        },
        None => None,
    }
}

/// The text kept of a message's content (screenshots become a marker).
pub fn extract_text_content(content: Option<&JsonValue>) -> (r: String)
    ensures
        r@ == content_text(match content {
            Some(c) => Some(*c),
            None => None,
        }),
{
    match content {
        Some(JsonValue::String(s)) => s.clone(),
        Some(JsonValue::Array(items)) => {
            let mut res = String::new();
            let mut count: usize = 0;
            let n = items.len();
            for i in 0..n
                invariant
                    n == items@.len(),
                    count == item_texts(items@.take(i as int)).len(),
                    count <= i,
                    res@ == join_lines(item_texts(items@.take(i as int))),
            {
                let ghost before = item_texts(items@.take(i as int));
                assert(items@.take(i + 1).drop_last() =~= items@.take(i as int));
                match item_text_exec(&items[i]) {
                    Some(p) => {
                        proof {
                            lemma_join_push(before, p@);
                        }
                        if count > 0 {
                            res.append("\n");
                        }
                        res.append(p.as_str());
                        count = count + 1;
                    },
                    None => {},
                }
            }
            assert(items@.take(n as int) =~= items@);
            res
        },
        _ => String::new(),
    }
}

/// A stored tool call made from an API tool call.
fn tool_call_from_api(call: &JsonValue) -> (t: SessionToolCall)
    ensures
        tool_call_matches(t, *call),
{
    proof {
        reveal_strlit("");
    }
    let id = get_str_or(call, "id", "");
    assert(id@ == str_or_empty(get_spec(*call, "id"@)));
    let f = call.get("function");
    let name;
    let arguments;
    match f {
        Some(f) => {
            name = get_str_or(f, "name", "");
            arguments = get_str_or(f, "arguments", "");
            assert(name@ == str_or_empty(get_spec(*f, "name"@)));
            assert(arguments@ == str_or_empty(get_spec(*f, "arguments"@)));
        },
        None => {
            name = String::new();
            arguments = String::new();
        },
    }
    SessionToolCall { id, name, arguments }
}

/// `m` is the stored form of the API message `api_msg`: its role, the text
/// of its content, its tool calls and the id of the call that it answers.
pub open spec fn is_stored_form(m: SessionMessage, api_msg: JsonValue) -> bool {
    &&& m.role@ == str_or_empty(get_spec(api_msg, "role"@))
    &&& m.content@ == content_text(get_spec(api_msg, "content"@))
    &&& match as_array_spec(get_spec(api_msg, "tool_calls"@)) {
        Some(calls) => m.tool_calls matches Some(ts) && ts@.len() == calls.len() && forall|i: int|
            0 <= i < calls.len() ==> tool_call_matches(#[trigger] ts@[i], calls[i]),
        None => m.tool_calls is None,
    }
    &&& match as_str_spec(get_spec(api_msg, "tool_call_id"@)) {
        Some(s) => m.tool_call_id matches Some(t) && t@ == s,
        None => m.tool_call_id is None,
    }
}

/// The stored form of an API message: its role, the text of its content,
/// its tool calls and the id of the call that it answers.
pub fn api_message_to_session_message(api_msg: &JsonValue) -> (m: SessionMessage)
    ensures
        is_stored_form(m, *api_msg),
{
    proof {
        reveal_strlit("");
    }
    let role = get_str_or(api_msg, "role", "");
    let content = extract_text_content(api_msg.get("content"));
    let tool_calls = match api_msg.get("tool_calls") {
        Some(v) => match v.as_array() {
            Some(calls) => {
                let mut out: Vec<SessionToolCall> = Vec::new();
                let n = calls.len();
                for i in 0..n
                    invariant
                        n == calls@.len(),
                        out@.len() == i,
                        forall|j: int| 0 <= j < i ==> tool_call_matches(#[trigger] out@[j], calls@[j]),
                {
                    out.push(tool_call_from_api(&calls[i]));
                }
                Some(out)
            },
            None => None,
        },
        None => None,
    };
    let tool_call_id = match get_str(api_msg, "tool_call_id") {
        Some(s) => Some(to_owned_string(s)),
        None => None,
    };
    let m = SessionMessage { role, content, tool_calls, tool_call_id };
    assert(m.role@ == str_or_empty(get_spec(*api_msg, "role"@)));
    assert(m.content@ == content_text(get_spec(*api_msg, "content"@)));
    m
}

/// `a` comes before `b` in the order of `str::cmp` (character by
/// character, by code point; a proper prefix comes first).
pub open spec fn text_less(a: Seq<char>, b: Seq<char>) -> bool
    decreases a.len(),
{
    if a.len() == 0 {
        b.len() > 0
    } else if b.len() == 0 {
        false
    } else if a[0] != b[0] {
        (a[0] as u32) < (b[0] as u32)
    } else {
        text_less(a.drop_first(), b.drop_first())
    }
}

/// `x` placed into `s`, which runs from the latest change to the earliest,
/// after every summary that changed no earlier than it.
pub open spec fn insert_by_recency(s: Seq<SessionSummary>, x: SessionSummary) -> Seq<
    SessionSummary,
>
    decreases s.len(),
{
    if s.len() == 0 {
        seq![x]
    } else if !text_less(s.last().updated_at@, x.updated_at@) {
        s.push(x)
    } else {
        insert_by_recency(s.drop_last(), x).push(s.last())
    }
}

/// The summaries from the latest change to the earliest, summaries with the
/// same change time keeping their order (what a stable sort by descending
/// change time gives).
pub open spec fn sort_by_recency(s: Seq<SessionSummary>) -> Seq<SessionSummary>
    decreases s.len(),
{
    if s.len() == 0 {
        Seq::empty()
    } else {
        insert_by_recency(sort_by_recency(s.drop_last()), s.last())
    }
}

/// Whether `a` comes before `b` in the order of `str::cmp`.
pub fn text_less_exec(a: &str, b: &str) -> (r: bool)
    ensures
        r == text_less(a@, b@),
{
    let x = crate::text::chars_of(a);
    let y = crate::text::chars_of(b);
    let mut i: usize = 0;
    assert(x@.skip(0) =~= x@);
    assert(y@.skip(0) =~= y@);
    while i < x.len() && i < y.len() && x[i] == y[i]
        invariant
            i <= x@.len(),
            i <= y@.len(),
            text_less(a@, b@) == text_less(x@.skip(i as int), y@.skip(i as int)),
            x@ == a@,
            y@ == b@,
        decreases x@.len() - i,
    {
        assert(x@.skip(i as int).drop_first() =~= x@.skip(i + 1));
        assert(y@.skip(i as int).drop_first() =~= y@.skip(i + 1));
        i = i + 1;
    }
    if i == x.len() {
        i < y.len()
    } else if i == y.len() {
        false
    } else {
        assert(x@.skip(i as int)[0] == x@[i as int]);
        assert(y@.skip(i as int)[0] == y@[i as int]);
        (x[i] as u32) < (y[i] as u32)
    }
}

proof fn lemma_insert_by_recency(s: Seq<SessionSummary>, x: SessionSummary, j: int)
    requires
        0 <= j <= s.len(),
        forall|k: int| j <= k < s.len() ==> text_less(s[k].updated_at@, x.updated_at@),
        j == 0 || !text_less(s[j - 1].updated_at@, x.updated_at@),
    ensures
        insert_by_recency(s, x) == s.insert(j, x),
    decreases s.len(),
{
    if s.len() == 0 {
        assert(s.insert(j, x) =~= seq![x]);
    } else if j == s.len() {
        assert(s.insert(j, x) =~= s.push(x));
    } else {
        lemma_insert_by_recency(s.drop_last(), x, j);
        assert(s.insert(j, x) =~= s.drop_last().insert(j, x).push(s.last()));
    }
}

/// The session list, from the latest change to the earliest.
pub fn sort_summaries(summaries: Vec<SessionSummary>) -> (r: Vec<SessionSummary>)
    ensures
        r@ == sort_by_recency(summaries@),
{
    let mut r: Vec<SessionSummary> = Vec::new();
    let n = summaries.len();
    let mut summaries = summaries;
    let ghost all = summaries@;
    let mut i: usize = 0;
    while i < n
        invariant
            n == summaries@.len(),
            all.len() == n,
            i <= n,
            forall|j: int| i <= j < n ==> summaries@[j] == all[j],
            r@ == sort_by_recency(all.take(i as int)),
        decreases n - i,
    {
        let mut x = SessionSummary {
            id: String::new(),
            title: String::new(),
            created_at: String::new(),
            updated_at: String::new(),
            message_count: 0,
        };
        summaries.set_and_swap(i, &mut x);
        assert(x == all[i as int]);
        assert(all.take(i + 1).drop_last() =~= all.take(i as int));
        let ghost before = r@;
        let mut j = r.len();
        while j > 0 && text_less_exec(r[j - 1].updated_at.as_str(), x.updated_at.as_str())
            invariant
                j <= r@.len(),
                r@ == before,
                forall|k: int| j <= k < r@.len() ==> text_less(r@[k].updated_at@, x.updated_at@),
            decreases j,
        {
            j = j - 1;
        }
        proof {
            lemma_insert_by_recency(before, x, j as int);
        }
        r.insert(j, x);
        i = i + 1;
    }
    assert(all.take(n as int) =~= all);
    r
}


/// A conversation keeps the first title it is given: once it is no longer
/// untitled, adding a message leaves the title as it is, and a title that
/// a message gives is the start of that message's trimmed text, at most 50
/// characters long.
pub proof fn law_title_named_once(title: Seq<char>, role: Seq<char>, content: Seq<char>)
    ensures
        title != untitled() ==> title_after(title, role, content) == title,
        title_after(title, role, content) != title ==> title_after(title, role, content).len()
            <= 50 && trim(content).take(title_after(title, role, content).len() as int)
            == title_after(title, role, content),
{
    if title_after(title, role, content) != title {
        let t = trim(content);
        if t.len() <= 50 {
            assert(t.take(t.len() as int) =~= t);
        }
    }
}

proof fn lemma_text_less_irreflexive(a: Seq<char>)
    ensures
        !text_less(a, a),
    decreases a.len(),
{
    if a.len() > 0 {
        lemma_text_less_irreflexive(a.drop_first());
    }
}

proof fn lemma_text_less_transitive(a: Seq<char>, b: Seq<char>, c: Seq<char>)
    requires
        text_less(a, b),
        text_less(b, c),
    ensures
        text_less(a, c),
    decreases a.len(),
{
    if a.len() > 0 && a[0] == b[0] && b[0] == c[0] {
        lemma_text_less_transitive(a.drop_first(), b.drop_first(), c.drop_first());
    }
}

proof fn lemma_text_less_total(a: Seq<char>, b: Seq<char>)
    ensures
        a == b || text_less(a, b) || text_less(b, a),
    decreases a.len(),
{
    if a.len() > 0 && b.len() > 0 && a[0] == b[0] {
        lemma_text_less_total(a.drop_first(), b.drop_first());
        if a.drop_first() == b.drop_first() {
            assert(a =~= seq![a[0]] + a.drop_first());
            assert(b =~= seq![b[0]] + b.drop_first());
        }
    } else if a.len() > 0 && b.len() > 0 && a[0] != b[0] {
        vstd::utf8::char_u32_cast(a[0], a[0] as u32);
        vstd::utf8::char_u32_cast(b[0], b[0] as u32);
        assert((a[0] as u32) != (b[0] as u32));
    } else if a.len() == 0 && b.len() == 0 {
        assert(a =~= b);
    }
}

/// No summary changed later than one before it.
pub open spec fn newest_first(s: Seq<SessionSummary>) -> bool {
    forall|i: int, j: int| 0 <= i < j < s.len() ==> !text_less(s[i].updated_at@, s[j].updated_at@)
}

proof fn lemma_insert_by_recency_sorted(s: Seq<SessionSummary>, x: SessionSummary)
    requires
        newest_first(s),
    ensures
        newest_first(insert_by_recency(s, x)),
        insert_by_recency(s, x).to_multiset() == s.to_multiset().insert(x),
    decreases s.len(),
{
    broadcast use vstd::seq_lib::to_multiset_build, vstd::seq_lib::to_multiset_contains;

    if s.len() == 0 {
        assert(seq![x] =~= Seq::<SessionSummary>::empty().push(x));
    } else if !text_less(s.last().updated_at@, x.updated_at@) {
        let l = s.last().updated_at@;
        lemma_text_less_total(l, x.updated_at@);
        assert forall|k: int| 0 <= k < s.len() implies !text_less(s[k].updated_at@, x.updated_at@) by {
            if text_less(s[k].updated_at@, x.updated_at@) {
                if k < s.len() - 1 {
                    if x.updated_at@ != l {
                        lemma_text_less_transitive(s[k].updated_at@, x.updated_at@, l);
                    }
                } else {
                }
            }
        }
    } else {
        let d = s.drop_last();
        let l = s.last().updated_at@;
        assert(newest_first(d));
        lemma_insert_by_recency_sorted(d, x);
        let r = insert_by_recency(d, x);
        assert(!text_less(x.updated_at@, l)) by {
            if text_less(x.updated_at@, l) {
                lemma_text_less_transitive(x.updated_at@, l, x.updated_at@);
                lemma_text_less_irreflexive(x.updated_at@);
            }
        }
        assert forall|k: int| 0 <= k < r.len() implies !text_less(r[k].updated_at@, l) by {
            assert(r.contains(r[k]));
            assert(r.to_multiset().count(r[k]) > 0);
            if r[k] != x {
                assert(d.to_multiset().count(r[k]) > 0);
                assert(d.contains(r[k]));
                let m = choose|m: int| 0 <= m < d.len() && d[m] == r[k];
                assert(s[m] == d[m]);
            }
        }
        assert(d.push(s.last()) =~= s);
    }
}

/// The session list runs from the latest change to the earliest, and
/// ordering it neither drops nor adds a session.
pub proof fn law_sessions_newest_first(summaries: Seq<SessionSummary>)
    ensures
        newest_first(sort_by_recency(summaries)),
        sort_by_recency(summaries).to_multiset() == summaries.to_multiset(),
    decreases summaries.len(),
{
    broadcast use vstd::seq_lib::to_multiset_build;

    if summaries.len() > 0 {
        law_sessions_newest_first(summaries.drop_last());
        lemma_insert_by_recency_sorted(sort_by_recency(summaries.drop_last()), summaries.last());
        assert(summaries.drop_last().push(summaries.last()) =~= summaries);
    } else {
        broadcast use vstd::seq_lib::to_multiset_len, vstd::multiset::lemma_multiset_empty_len;

        assert(summaries.to_multiset().len() == 0);
        assert(sort_by_recency(summaries).to_multiset().len() == 0);
    }
}

} // verus!
