//! The chat messages that the task loop sends to the model, in JSON form,
//! how they enter the conversation log, and what the log keeps of them.
use vstd::prelude::*;
use crate::document_parser::{data_url, image_data_url};
use crate::json::{as_array_spec, as_str_spec, get_opt, get_spec, lookup, JsonValue};
use crate::screen_agent_v2::SCREEN_UNCHANGED_HINT;
use crate::session::{
    api_message_to_session_message, is_stored_form, content_text, item_text, item_texts, join_lines, str_or_empty,
    tool_call_matches, Session, SessionMessage, SessionToolCall, title_after,
};
use crate::stream::{call_views, opt_view, ToolCall, ToolCallView};
use crate::text::{is_blank, trim};

verus! {

/// The entries of `v`, where it is an object with exactly the keys `keys`
/// in that order.
pub open spec fn has_keys(v: JsonValue, keys: Seq<Seq<char>>) -> bool {
    v matches JsonValue::Object(f) && f@.len() == keys.len() && forall|i: int|
        0 <= i < keys.len() ==> (#[trigger] f@[i]).0@ == keys[i]
}

/// The entry `key` of `v` is the string `s`.
pub open spec fn has_str(v: JsonValue, key: Seq<char>, s: Seq<char>) -> bool {
    as_str_spec(get_spec(v, key)) == Some(s)
}

/// A text part of a message's content.
pub open spec fn text_part(v: JsonValue, text: Seq<char>) -> bool {
    has_keys(v, seq!["type"@, "text"@]) && has_str(v, "type"@, "text"@) && has_str(
        v,
        "text"@,
        text,
    )
}

/// An image part of a message's content, with the image's URL.
pub open spec fn image_part(v: JsonValue, url: Seq<char>) -> bool {
    has_keys(v, seq!["type"@, "image_url"@]) && has_str(v, "type"@, "image_url"@) && match get_spec(
        v,
        "image_url"@,
    ) {
        Some(u) => has_keys(u, seq!["url"@]) && has_str(u, "url"@, url),
        None => false,
    }
}

/// The user message of a round: the instruction, then the screenshot as a
/// PNG data URL, or the hint that the screen did not change.
pub open spec fn is_user_message(m: JsonValue, instruction: Seq<char>, screenshot: Option<
    Seq<char>,
>) -> bool {
    &&& has_keys(m, seq!["role"@, "content"@])
    &&& has_str(m, "role"@, "user"@)
    &&& match as_array_spec(get_spec(m, "content"@)) {
        Some(items) => items.len() == 2 && text_part(items[0], instruction) && match screenshot {
            Some(b) => image_part(items[1], data_url("image/png"@, b)),
            None => text_part(items[1], SCREEN_UNCHANGED_HINT@),
        },
        None => false,
    }
}

/// A message with a role and a text content.
pub open spec fn is_text_message(m: JsonValue, role: Seq<char>, content: Seq<char>) -> bool {
    has_keys(m, seq!["role"@, "content"@]) && has_str(m, "role"@, role) && has_str(
        m,
        "content"@,
        content,
    )
}

/// The answer to a tool call: its id and the tool's result.
pub open spec fn is_tool_message(m: JsonValue, call_id: Seq<char>, content: Seq<char>) -> bool {
    has_keys(m, seq!["role"@, "tool_call_id"@, "content"@]) && has_str(m, "role"@, "tool"@)
        && has_str(m, "tool_call_id"@, call_id) && has_str(m, "content"@, content)
}

/// The content of an assistant message: the text, or null.
pub open spec fn content_value(v: Option<JsonValue>, content: Option<Seq<char>>) -> bool {
    match content {
        Some(c) => as_str_spec(v) == Some(c),
        None => v == Some(JsonValue::Null),
    }
}

/// A tool call as it appears in an assistant message.
pub open spec fn is_call_json(v: JsonValue, c: ToolCallView) -> bool {
    &&& has_keys(v, seq!["id"@, "type"@, "function"@])
    &&& has_str(v, "id"@, c.id)
    &&& has_str(v, "type"@, c.call_type)
    &&& match get_spec(v, "function"@) {
        Some(f) => has_keys(f, seq!["name"@, "arguments"@]) && has_str(f, "name"@, c.name)
            && has_str(f, "arguments"@, c.arguments),
        None => false,
    }
}

/// An assistant message that asks for tool calls.
pub open spec fn is_tool_calls_message(m: JsonValue, content: Option<Seq<char>>, calls: Seq<
    ToolCallView,
>) -> bool {
    &&& has_keys(m, seq!["role"@, "content"@, "tool_calls"@])
    &&& has_str(m, "role"@, "assistant"@)
    &&& content_value(get_spec(m, "content"@), content)
    &&& match as_array_spec(get_spec(m, "tool_calls"@)) {
        Some(items) => items.len() == calls.len() && forall|i: int|
            0 <= i < calls.len() ==> is_call_json(#[trigger] items[i], calls[i]),
        None => false,
    }
}

/// A JSON string.
pub(crate) fn jstr(s: String) -> (v: JsonValue)
    ensures
        v == JsonValue::String(s),
{
    JsonValue::String(s)
}

/// An object with the given entries.
fn jobj(fields: Vec<(String, JsonValue)>) -> (v: JsonValue)
    ensures
        v == JsonValue::Object(fields),
{
    JsonValue::Object(fields)
}

proof fn lemma_lookup_at(f: Seq<(String, JsonValue)>, key: Seq<char>, i: int)
    requires
        0 <= i < f.len(),
        f[i].0@ == key,
        forall|j: int| 0 <= j < i ==> f[j].0@ != key,
    ensures
        lookup(f, key) == Some(f[i].1),
    decreases i,
{
    if i > 0 {
        assert(f.drop_first()[i - 1] == f[i]);
        assert forall|j: int| 0 <= j < i - 1 implies f.drop_first()[j].0@ != key by {
            assert(f.drop_first()[j] == f[j + 1]);
        }
        lemma_lookup_at(f.drop_first(), key, i - 1);
    }
}

proof fn lemma_lookup_absent(f: Seq<(String, JsonValue)>, key: Seq<char>)
    requires
        forall|j: int| 0 <= j < f.len() ==> f[j].0@ != key,
    ensures
        lookup(f, key).is_none(),
    decreases f.len(),
{
    if f.len() > 0 {
        assert forall|j: int| 0 <= j < f.len() - 1 implies f.drop_first()[j].0@ != key by {
            assert(f.drop_first()[j] == f[j + 1]);
        }
        lemma_lookup_absent(f.drop_first(), key);
    }
}

/// A one-entry object `{k1: v1}`.
pub(crate) fn object1(k1: &str, v1: JsonValue) -> (v: JsonValue)
    ensures
        has_keys(v, seq![k1@]),
        get_spec(v, k1@) == Some(v1),
{
    let mut f: Vec<(String, JsonValue)> = Vec::new();
    f.push((String::from_str(k1), v1));
    proof {
        lemma_lookup_at(f@, k1@, 0);
    }
    jobj(f)
}

/// A two-entry object `{k1: v1, k2: v2}`.
pub(crate) fn object2(k1: &str, v1: JsonValue, k2: &str, v2: JsonValue) -> (v: JsonValue)
    requires
        k1@ != k2@,
    ensures
        has_keys(v, seq![k1@, k2@]),
        get_spec(v, k1@) == Some(v1),
        get_spec(v, k2@) == Some(v2),
{
    let mut f: Vec<(String, JsonValue)> = Vec::new();
    f.push((String::from_str(k1), v1));
    f.push((String::from_str(k2), v2));
    proof {
        lemma_lookup_at(f@, k1@, 0);
        lemma_lookup_at(f@, k2@, 1);
    }
    jobj(f)
}

/// A three-entry object `{k1: v1, k2: v2, k3: v3}`.
pub(crate) fn object3(k1: &str, v1: JsonValue, k2: &str, v2: JsonValue, k3: &str, v3: JsonValue) -> (v:
    JsonValue)
    requires
        k1@ != k2@,
        k1@ != k3@,
        k2@ != k3@,
    ensures
        has_keys(v, seq![k1@, k2@, k3@]),
        get_spec(v, k1@) == Some(v1),
        get_spec(v, k2@) == Some(v2),
        get_spec(v, k3@) == Some(v3),
{
    let mut f: Vec<(String, JsonValue)> = Vec::new();
    f.push((String::from_str(k1), v1));
    f.push((String::from_str(k2), v2));
    f.push((String::from_str(k3), v3));
    proof {
        lemma_lookup_at(f@, k1@, 0);
        lemma_lookup_at(f@, k2@, 1);
        lemma_lookup_at(f@, k3@, 2);
    }
    jobj(f)
}

/// A text part of a message's content.
fn text_part_json(text: &str) -> (v: JsonValue)
    ensures
        text_part(v, text@),
{
    proof {
        reveal_strlit("type");
        reveal_strlit("text");
    }
    assert("type"@[1] != "text"@[1]);
    object2("type", jstr(String::from_str("text")), "text", jstr(String::from_str(text)))
}

/// The user message of a round: the instruction, then the screenshot (PNG
/// in base64) where one is attached, else the hint that the screen did not
/// change.
pub fn user_message(instruction: &str, screenshot_base64: Option<&str>) -> (m: JsonValue)
    ensures
        is_user_message(
            m,
            instruction@,
            match screenshot_base64 {
                Some(b) => Some(b@),
                None => None,
            },
        ),
{
    proof {
        reveal_strlit("role");
        reveal_strlit("content");
        reveal_strlit("type");
        reveal_strlit("image_url");
        reveal_strlit("url");
    }
    let first = text_part_json(instruction);
    let second = match screenshot_base64 {
        Some(b) => {
            let url = image_data_url("image/png", b);
            let inner = {
                let mut f: Vec<(String, JsonValue)> = Vec::new();
                f.push((String::from_str("url"), jstr(url)));
                proof {
                    lemma_lookup_at(f@, "url"@, 0);
                }
                jobj(f)
            };
            assert("type"@.len() != "image_url"@.len());
            object2("type", jstr(String::from_str("image_url")), "image_url", inner)
        },
        None => text_part_json(SCREEN_UNCHANGED_HINT),
    };
    let mut items: Vec<JsonValue> = Vec::new();
    items.push(first);
    items.push(second);
    assert("role"@.len() != "content"@.len());
    object2("role", jstr(String::from_str("user")), "content", JsonValue::Array(items))
}

/// The system message that opens the conversation.
pub fn system_message(content: &str) -> (m: JsonValue)
    ensures
        is_text_message(m, "system"@, content@),
{
    proof {
        reveal_strlit("role");
        reveal_strlit("content");
    }
    assert("role"@.len() != "content"@.len());
    object2("role", jstr(String::from_str("system")), "content", jstr(String::from_str(content)))
}

/// The answer to the tool call `call_id`: the tool's result.
pub fn tool_message(call_id: &str, content: &str) -> (m: JsonValue)
    ensures
        is_tool_message(m, call_id@, content@),
{
    proof {
        reveal_strlit("role");
        reveal_strlit("content");
        reveal_strlit("tool_call_id");
    }
    assert("role"@.len() != "content"@.len());
    assert("role"@.len() != "tool_call_id"@.len());
    assert("content"@.len() != "tool_call_id"@.len());
    object3(
        "role",
        jstr(String::from_str("tool")),
        "tool_call_id",
        jstr(String::from_str(call_id)),
        "content",
        jstr(String::from_str(content)),
    )
}

/// An assistant message without tool calls: its text, or null.
pub fn assistant_message(content: Option<String>) -> (m: JsonValue)
    ensures
        has_keys(m, seq!["role"@, "content"@]),
        has_str(m, "role"@, "assistant"@),
        content_value(get_spec(m, "content"@), opt_view(content)),
{
    proof {
        reveal_strlit("role");
        reveal_strlit("content");
    }
    let c = match content {
        Some(s) => jstr(s),
        None => JsonValue::Null,
    };
    assert("role"@.len() != "content"@.len());
    object2("role", jstr(String::from_str("assistant")), "content", c)
}

/// A tool call as it appears in an assistant message.
fn call_json(c: &ToolCall) -> (v: JsonValue)
    ensures
        is_call_json(v, c@),
{
    proof {
        reveal_strlit("id");
        reveal_strlit("type");
        reveal_strlit("function");
        reveal_strlit("name");
        reveal_strlit("arguments");
    }
    assert("name"@.len() != "arguments"@.len());
    assert("id"@.len() != "type"@.len());
    assert("id"@.len() != "function"@.len());
    assert("type"@.len() != "function"@.len());
    let f = object2(
        "name",
        jstr(c.function.name.clone()),
        "arguments",
        jstr(c.function.arguments.clone()),
    );
    object3("id", jstr(c.id.clone()), "type", jstr(c.call_type.clone()), "function", f)
}

/// An assistant message that asks for the tool calls `calls`, with its
/// text or null.
pub fn assistant_tool_calls_message(content: Option<String>, calls: &Vec<ToolCall>) -> (m:
    JsonValue)
    ensures
        is_tool_calls_message(m, opt_view(content), call_views(calls@)),
{
    proof {
        reveal_strlit("role");
        reveal_strlit("content");
        reveal_strlit("tool_calls");
    }
    let ghost cv = opt_view(content);
    let c = match content {
        Some(s) => jstr(s),
        None => JsonValue::Null,
    };
    assert(content_value(Some(c), cv));
    let mut items: Vec<JsonValue> = Vec::new();
    let n = calls.len();
    for i in 0..n
        invariant
            n == calls@.len(),
            items@.len() == i,
            forall|j: int| 0 <= j < i ==> is_call_json(#[trigger] items@[j], calls@[j]@),
    {
        items.push(call_json(&calls[i]));
    }
    let ghost iv = items@;
    assert("role"@.len() != "content"@.len());
    assert("role"@.len() != "tool_calls"@.len());
    assert("content"@.len() != "tool_calls"@.len());
    let m = object3(
        "role",
        jstr(String::from_str("assistant")),
        "content",
        c,
        "tool_calls",
        JsonValue::Array(items),
    );
    assert(as_array_spec(get_spec(m, "tool_calls"@)) == Some(iv));
    assert forall|i: int| 0 <= i < n implies is_call_json(#[trigger] iv[i], call_views(calls@)[i]) by {
        assert(call_views(calls@)[i] == calls@[i]@);
    }
    m
}

/// Adds a message to the conversation: the log keeps its stored form, and
/// the list sent to the model keeps the message itself.
pub fn append_message(messages: &mut Vec<JsonValue>, session: &mut Session, msg: JsonValue)
    ensures
        final(messages)@ == old(messages)@.push(msg),
        final(session).messages@.len() == old(session).messages@.len() + 1,
        final(session).messages@.drop_last() == old(session).messages@,
        is_stored_form(final(session).messages@.last(), msg),
        final(session).title@ == title_after(
            old(session).title@,
            str_or_empty(get_spec(msg, "role"@)),
            content_text(get_spec(msg, "content"@)),
        ),
        final(session).id == old(session).id,
{
    let stored = api_message_to_session_message(&msg);
    let ghost before = session.messages@;
    session.add_message(stored);
    assert(session.messages@.drop_last() =~= before);
    messages.push(msg);
}

/// What the log keeps of a user message's content: the instruction where
/// it is not blank, then a marker for the screenshot or the hint, one per
/// line. The image data itself is not kept.
pub open spec fn stored_user_content(instruction: Seq<char>, screenshot: bool) -> Seq<char> {
    let second = if screenshot {
        "[screenshot]"@
    } else {
        SCREEN_UNCHANGED_HINT@
    };
    if is_blank(instruction) {
        second
    } else {
        instruction + "\n"@ + second
    }
}

/// The conversation log keeps a round's user message as text: the
/// instruction and a marker in place of the screenshot, so that no image
/// data is stored.
pub proof fn law_user_message_stored_as_text(
    m: JsonValue,
    instruction: Seq<char>,
    screenshot: Option<Seq<char>>,
)
    requires
        is_user_message(m, instruction, screenshot),
    ensures
        content_text(get_spec(m, "content"@)) == stored_user_content(
            instruction,
            screenshot is Some,
        ),
        str_or_empty(get_spec(m, "role"@)) == "user"@,
{
    reveal_strlit("text");
    reveal_strlit("image_url");
    reveal_strlit("input_image");
    reveal_strlit("[系统提示] 页面未发生显著变化。请基于当前屏幕继续分析并执行下一步操作。");
    let items = as_array_spec(get_spec(m, "content"@))->0;
    let c = get_spec(m, "content"@)->0;
    assert(c matches JsonValue::Array(v) && v@ == items);
    let hint = SCREEN_UNCHANGED_HINT@;
    assert(!is_blank(hint)) by {
        assert(hint[0] == '[');
        assert(crate::text::trim_start(hint) == hint);
        assert(hint.last() == '。');
        assert(crate::text::trim_end(hint) == hint);
    }
    assert("text"@.len() != "image_url"@.len());
    assert("text"@.len() != "input_image"@.len());
    assert(has_str(items[0], "type"@, "text"@));
    assert(item_text(items[0]) == if is_blank(instruction) {
        None
    } else {
        Some(instruction)
    });
    let second = if screenshot is Some {
        "[screenshot]"@
    } else {
        hint
    };
    if screenshot is Some {
        assert(has_str(items[1], "type"@, "image_url"@));
    } else {
        assert(has_str(items[1], "type"@, "text"@));
        assert(has_str(items[1], "text"@, hint));
    }
    assert(item_text(items[1]) == Some(second));
    let d = items.drop_last();
    assert(d.len() == 1);
    assert(d.last() == items[0]);
    assert(d.drop_last() =~= Seq::<JsonValue>::empty());
    assert(item_texts(d.drop_last()) == Seq::<Seq<char>>::empty());
    assert(items.last() == items[1]);
    assert(item_texts(items.drop_last()) == if is_blank(instruction) {
        Seq::<Seq<char>>::empty()
    } else {
        seq![instruction]
    });
    if is_blank(instruction) {
        assert(item_texts(items) =~= seq![second]);
        assert(join_lines(seq![second]) == second);
    } else {
        assert(item_texts(items) =~= seq![instruction, second]);
        assert(seq![instruction, second].drop_last() =~= seq![instruction]);
        assert(join_lines(seq![instruction]) == instruction);
        assert(join_lines(seq![instruction, second]) == instruction + "\n"@ + second);
    }
}

/// The conversation log keeps the answer to a tool call whole: its role,
/// the tool's result as the content, and the id of the call it answers.
pub proof fn law_tool_message_stored_whole(m: JsonValue, call_id: Seq<char>, content: Seq<char>)
    requires
        is_tool_message(m, call_id, content),
    ensures
        str_or_empty(get_spec(m, "role"@)) == "tool"@,
        content_text(get_spec(m, "content"@)) == content,
        as_str_spec(get_spec(m, "tool_call_id"@)) == Some(call_id),
        as_array_spec(get_spec(m, "tool_calls"@)).is_none(),
{
    reveal_strlit("role");
    reveal_strlit("content");
    reveal_strlit("tool_call_id");
    reveal_strlit("tool_calls");
    let f = m->Object_0@;
    assert(f[0].0@ == "role"@ && f[1].0@ == "tool_call_id"@ && f[2].0@ == "content"@);
    assert(f[0].0@ != "tool_calls"@ && f[1].0@ != "tool_calls"@ && f[2].0@ != "tool_calls"@) by {
        assert("role"@.len() != "tool_calls"@.len());
        assert("tool_call_id"@.len() != "tool_calls"@.len());
        assert("content"@.len() != "tool_calls"@.len());
    }
    lemma_lookup_absent(f, "tool_calls"@);
}

/// The conversation log keeps each tool call that an assistant message asks
/// for: its id, the function's name and its arguments, in order.
pub proof fn law_tool_calls_stored(m: JsonValue, content: Option<Seq<char>>, calls: Seq<ToolCallView>, stored: Seq<SessionToolCall>)
    requires
        is_tool_calls_message(m, content, calls),
        stored.len() == calls.len(),
        forall|i: int| 0 <= i < calls.len() ==> tool_call_matches(
            #[trigger] stored[i],
            as_array_spec(get_spec(m, "tool_calls"@))->0[i],
        ),
    ensures
        forall|i: int|
            0 <= i < calls.len() ==> (#[trigger] stored[i]).id@ == calls[i].id && stored[i].name@
                == calls[i].name && stored[i].arguments@ == calls[i].arguments,
        str_or_empty(get_spec(m, "role"@)) == "assistant"@,
{
    let items = as_array_spec(get_spec(m, "tool_calls"@))->0;
    assert forall|i: int| 0 <= i < calls.len() implies (#[trigger] stored[i]).id@ == calls[i].id
        && stored[i].name@ == calls[i].name && stored[i].arguments@ == calls[i].arguments by {
        assert(is_call_json(items[i], calls[i]));
    }
}

/// The request that asks the vision model about one image: the model, and
/// a single user message with the image's URL and then the prompt.
pub open spec fn is_vision_request(r: JsonValue, model: Seq<char>, image_url: Seq<char>, prompt: Seq<
    char,
>) -> bool {
    &&& has_keys(r, seq!["model"@, "messages"@])
    &&& has_str(r, "model"@, model)
    &&& match as_array_spec(get_spec(r, "messages"@)) {
        Some(msgs) => msgs.len() == 1 && has_keys(msgs[0], seq!["role"@, "content"@]) && has_str(
            msgs[0],
            "role"@,
            "user"@,
        ) && match as_array_spec(get_spec(msgs[0], "content"@)) {
            Some(items) => items.len() == 2 && image_part(items[0], image_url) && text_part(
                items[1],
                prompt,
            ),
            None => false,
        },
        None => false,
    }
}

/// The request that asks the vision model `model` about the image at
/// `image_url` with `prompt`.
pub fn vision_request(model: &str, image_url: &str, prompt: &str) -> (r: JsonValue)
    ensures
        is_vision_request(r, model@, image_url@, prompt@),
{
    proof {
        reveal_strlit("role");
        reveal_strlit("content");
        reveal_strlit("type");
        reveal_strlit("image_url");
        reveal_strlit("url");
        reveal_strlit("model");
        reveal_strlit("messages");
    }
    let inner = {
        let mut f: Vec<(String, JsonValue)> = Vec::new();
        f.push((String::from_str("url"), jstr(String::from_str(image_url))));
        proof {
            lemma_lookup_at(f@, "url"@, 0);
        }
        jobj(f)
    };
    assert("type"@.len() != "image_url"@.len());
    let image = object2("type", jstr(String::from_str("image_url")), "image_url", inner);
    let text = text_part_json(prompt);
    let mut items: Vec<JsonValue> = Vec::new();
    items.push(image);
    items.push(text);
    assert("role"@.len() != "content"@.len());
    let msg = object2("role", jstr(String::from_str("user")), "content", JsonValue::Array(items));
    let mut msgs: Vec<JsonValue> = Vec::new();
    msgs.push(msg);
    assert("model"@.len() != "messages"@.len());
    object2("model", jstr(String::from_str(model)), "messages", JsonValue::Array(msgs))
}

} // verus!
