//! Reading a streamed chat completion: cutting the server-sent events into
//! lines, and assembling the assistant's text, reasoning and tool calls from
//! the deltas that the chunks carry.
use vstd::prelude::*;
use crate::text::{
    concat2, decimal, is_ws, starts_with_seq, trim, trim_bounds, trim_end, trim_start, u64_to_decimal,
};

verus! {

/// The text of an optional string.
pub open spec fn opt_view(o: Option<String>) -> Option<Seq<char>> {
    match o {
        Some(s) => Some(s@),
        None => None,
    }
}

/// A copy of an optional string.
pub fn clone_opt(o: &Option<String>) -> (r: Option<String>)
    ensures
        opt_view(r) == opt_view(*o),
{
    match o {
        Some(s) => Some(s.clone()),
        None => None,
    }
}

/// The function part of a streamed tool-call delta.
pub struct StreamFunction {
    pub name: Option<String>,
    pub arguments: Option<String>,
}

/// A streamed tool-call delta: which call it belongs to, and the pieces of
/// it that this chunk carries.
pub struct StreamToolCall {
    pub index: usize,
    pub id: Option<String>,
    pub call_type: Option<String>,
    pub function: Option<StreamFunction>,
}

/// A tool call while its deltas are still arriving.
pub struct PendingToolCall {
    pub id: Option<String>,
    pub call_type: Option<String>,
    pub name: Option<String>,
    pub arguments: String,
}

/// What a pending tool call holds, as text.
pub struct PendingView {
    pub id: Option<Seq<char>>,
    pub call_type: Option<Seq<char>>,
    pub name: Option<Seq<char>>,
    pub arguments: Seq<char>,
}

impl View for PendingToolCall {
    type V = PendingView;

    open spec fn view(&self) -> PendingView {
        PendingView {
            id: opt_view(self.id),
            call_type: opt_view(self.call_type),
            name: opt_view(self.name),
            arguments: self.arguments@,
        }
    }
}

/// The function that a tool call names, with its arguments as JSON text.
pub struct FunctionCall {
    pub name: String,
    pub arguments: String,
}

/// A complete tool call of the assistant.
pub struct ToolCall {
    pub id: String,
    pub call_type: String,
    pub function: FunctionCall,
}

/// What a tool call holds, as text.
pub struct ToolCallView {
    pub id: Seq<char>,
    pub call_type: Seq<char>,
    pub name: Seq<char>,
    pub arguments: Seq<char>,
}

impl View for ToolCall {
    type V = ToolCallView;

    open spec fn view(&self) -> ToolCallView {
        ToolCallView {
            id: self.id@,
            call_type: self.call_type@,
            name: self.function.name@,
            arguments: self.function.arguments@,
        }
    }
}

/// A pending tool call that has received nothing yet.
pub open spec fn empty_pending() -> PendingView {
    PendingView { id: None, call_type: None, name: None, arguments: Seq::empty() }
}

/// A pending call after one delta: id, type and name are replaced by the
/// delta's where it has them, and argument text is appended.
pub open spec fn merged(p: PendingView, tc: StreamToolCall) -> PendingView {
    PendingView {
        id: if tc.id is Some {
            opt_view(tc.id)
        } else {
            p.id
        },
        call_type: if tc.call_type is Some {
            opt_view(tc.call_type)
        } else {
            p.call_type
        },
        name: match tc.function {
            Some(f) => if f.name is Some {
                opt_view(f.name)
            } else {
                p.name
            },
            None => p.name,
        },
        arguments: match tc.function {
            Some(f) => match f.arguments {
                Some(a) => p.arguments + a@,
                None => p.arguments,
            },
            None => p.arguments,
        },
    }
}

/// The pending calls after one delta: the list grows with empty calls up
/// to the delta's index, and the call at that index takes the delta.
pub open spec fn merge_into(ps: Seq<PendingView>, tc: StreamToolCall) -> Seq<PendingView> {
    let padded = if ps.len() <= tc.index {
        ps + Seq::new((tc.index + 1 - ps.len()) as nat, |i: int| empty_pending())
    } else {
        ps
    };
    padded.update(tc.index as int, merged(padded[tc.index as int], tc))
}

/// A pending call holds something.
pub open spec fn has_data(p: PendingView) -> bool {
    p.id is Some || p.call_type is Some || p.name is Some || p.arguments.len() > 0
}

/// The tool call made of the pending call at position `idx`: a missing id
/// becomes `stream_call_<idx>`, a missing type `function`, a missing name
/// the empty text.
pub open spec fn finalize_one(p: PendingView, idx: nat) -> ToolCallView {
    ToolCallView {
        id: match p.id {
            Some(s) => s,
            None => "stream_call_"@ + decimal(idx),
        },
        call_type: match p.call_type {
            Some(s) => s,
            None => "function"@,
        },
        name: match p.name {
            Some(s) => s,
            None => Seq::empty(),
        },
        arguments: p.arguments,
    }
}

/// The tool calls that the pending calls give, in order, leaving out those
/// that received nothing.
pub open spec fn finalized(ps: Seq<PendingView>) -> Seq<ToolCallView>
    decreases ps.len(),
{
    if ps.len() == 0 {
        Seq::empty()
    } else {
        let rest = finalized(ps.drop_last());
        if has_data(ps.last()) {
            rest.push(finalize_one(ps.last(), (ps.len() - 1) as nat))
        } else {
            rest
        }
    }
}

/// The views of a sequence of pending calls.
pub open spec fn pending_views(ps: Seq<PendingToolCall>) -> Seq<PendingView> {
    ps.map_values(|p: PendingToolCall| p@)
}

/// The views of a sequence of tool calls.
pub open spec fn call_views(cs: Seq<ToolCall>) -> Seq<ToolCallView> {
    cs.map_values(|c: ToolCall| c@)
}

impl PendingToolCall {
    /// A pending call that has received nothing.
    pub fn empty() -> (p: PendingToolCall)
        ensures
            p@ == empty_pending(),
    {
        PendingToolCall { id: None, call_type: None, name: None, arguments: String::new() }
    }
}

/// Folds one streamed tool-call delta into the pending calls.
pub fn merge_stream_tool_call(pending: &mut Vec<PendingToolCall>, tc: StreamToolCall)
    ensures
        pending_views(final(pending)@) == merge_into(pending_views(old(pending)@), tc),
{
    let ghost old_views = pending_views(pending@);
    let idx = tc.index;
    while pending.len() <= idx
        invariant
            pending_views(pending@) == (if old_views.len() <= idx {
                old_views + Seq::new(
                    (pending@.len() - old_views.len()) as nat,
                    |i: int| empty_pending(),
                )
            } else {
                old_views
            }),
            pending@.len() >= old_views.len(),
            old_views.len() <= idx ==> pending@.len() <= idx + 1,
            old_views.len() > idx ==> pending@.len() == old_views.len(),
        decreases idx + 1 - pending@.len(),
    {
        let ghost before = pending_views(pending@);
        pending.push(PendingToolCall::empty());
        assert(pending_views(pending@) =~= before.push(empty_pending()));
        assert(pending_views(pending@) =~= old_views + Seq::new(
            (pending@.len() - old_views.len()) as nat,
            |i: int| empty_pending(),
        ));
    }
    let ghost padded = pending_views(pending@);
    assert(padded =~= (if old_views.len() <= idx {
        old_views + Seq::new((idx + 1 - old_views.len()) as nat, |i: int| empty_pending())
    } else {
        old_views
    }));
    let mut target = PendingToolCall::empty();
    pending.set_and_swap(idx, &mut target);
    assert(target@ == padded[idx as int]);
    let StreamToolCall { index: _, id, call_type, function } = tc;
    if let Some(v) = id {
        target.id = Some(v);
    }
    if let Some(v) = call_type {
        target.call_type = Some(v);
    }
    if let Some(f) = function {
        let StreamFunction { name, arguments } = f;
        if let Some(n) = name {
            target.name = Some(n);
        }
        if let Some(a) = arguments {
            target.arguments.append(a.as_str());
        }
    }
    let ghost new_target = target@;
    pending.set(idx, target);
    assert(pending_views(pending@) =~= padded.update(idx as int, new_target));
}

/// The tool call made of the pending call at position `idx`.
fn finalize_pending(p: &PendingToolCall, idx: usize) -> (c: ToolCall)
    ensures
        c@ == finalize_one(p@, idx as nat),
{
    let id = match &p.id {
        Some(s) => s.clone(),
        None => {
            let d = u64_to_decimal(idx as u64);
            concat2("stream_call_", d.as_str())
        },
    };
    let call_type = match &p.call_type {
        Some(s) => s.clone(),
        None => String::from_str("function"),
    };
    let name = match &p.name {
        Some(s) => s.clone(),
        None => String::new(),
    };
    ToolCall { id, call_type, function: FunctionCall { name, arguments: p.arguments.clone() } }
}

/// The complete tool calls, in order, leaving out pending calls that
/// received nothing.
pub fn finalize_stream_tool_calls(pending: Vec<PendingToolCall>) -> (r: Vec<ToolCall>)
    ensures
        call_views(r@) == finalized(pending_views(pending@)),
{
    let mut out: Vec<ToolCall> = Vec::new();
    let n = pending.len();
    for i in 0..n
        invariant
            n == pending@.len(),
            call_views(out@) == finalized(pending_views(pending@.take(i as int))),
    {
        let ghost before = call_views(out@);
        let p = &pending[i];
        assert(pending_views(pending@.take(i + 1)).drop_last() =~= pending_views(
            pending@.take(i as int),
        ));
        assert(pending_views(pending@.take(i + 1)).last() == p@);
        let has = p.id.is_some() || p.call_type.is_some() || p.name.is_some()
            || p.arguments.as_str().unicode_len() > 0;
        if has {
            let c = finalize_pending(p, i);
            out.push(c);
            assert(call_views(out@) =~= before.push(c@));
        }
    }
    assert(pending@.take(n as int) =~= pending@);
    out
}

/// What one line of the event stream means.
pub enum SseLine {
    /// An empty line, or one that carries no `data: ` field.
    Skip,
    /// The `data: [DONE]` line that ends the stream.
    Done,
    /// The payload of a `data: ` line.
    Data(String),
}

/// What one line of the event stream means, as text.
pub enum SseLineView {
    Skip,
    Done,
    Data(Seq<char>),
}

/// `s` without the characters `c` at its end.
pub open spec fn trim_end_char(s: Seq<char>, c: char) -> Seq<char>
    decreases s.len(),
{
    if s.len() > 0 && s.last() == c {
        trim_end_char(s.drop_last(), c)
    } else {
        s
    }
}

/// The meaning of a raw line (without its newline): carriage returns at
/// its end are dropped and it is trimmed; a line that does not start with
/// `data: ` is skipped, `data: [DONE]` ends the stream, and any other
/// `data: ` line carries what follows the prefix.
pub open spec fn classify_line(raw: Seq<char>) -> SseLineView {
    let line = trim(trim_end_char(raw, '\r'));
    if line.len() == 0 || !starts_with_seq(line, "data: "@) {
        SseLineView::Skip
    } else if line.skip(6) == "[DONE]"@ {
        SseLineView::Done
    } else {
        SseLineView::Data(line.skip(6))
    }
}

impl View for SseLine {
    type V = SseLineView;

    open spec fn view(&self) -> SseLineView {
        match self {
            SseLine::Skip => SseLineView::Skip,
            SseLine::Done => SseLineView::Done,
            SseLine::Data(s) => SseLineView::Data(s@),
        }
    }
}

/// The position of the first newline in `s`, if there is one.
pub open spec fn first_newline(s: Seq<char>) -> Option<int> {
    if exists|i: int| 0 <= i < s.len() && s[i] == '\n' {
        Some(choose|i: int| 0 <= i < s.len() && s[i] == '\n' && forall|j: int| 0 <= j < i ==> s[j] != '\n')
    } else {
        None
    }
}

/// Text of the event stream that has arrived but not yet been cut into lines.
pub struct SseBuffer {
    pub pending: Vec<char>,
}

impl SseBuffer {
    /// An empty buffer.
    pub fn new() -> (b: SseBuffer)
        ensures
            b.pending@.len() == 0,
    {
        SseBuffer { pending: Vec::new() }
    }

    /// Appends text that has arrived.
    pub fn push_text(&mut self, text: &str)
        ensures
            final(self).pending@ == old(self).pending@ + text@,
    {
        let t = crate::text::chars_of(text);
        let n = t.len();
        let ghost start = self.pending@;
        for i in 0..n
            invariant
                n == t@.len(),
                self.pending@ == start + t@.take(i as int),
        {
            self.pending.push(t[i]);
            assert(t@.take(i + 1) =~= t@.take(i as int).push(t@[i as int]));
        }
        assert(t@.take(n as int) =~= t@);
    }

    /// Takes the first complete line out of the buffer and says what it
    /// means; without a complete line, the buffer stays as it is.
    pub fn next_line(&mut self) -> (r: Option<SseLine>)
        ensures
            match first_newline(old(self).pending@) {
                None => r is None && final(self).pending@ == old(self).pending@,
                Some(k) => r matches Some(l) && l@ == classify_line(old(self).pending@.take(k))
                    && final(self).pending@ == old(self).pending@.skip(k + 1),
            },
    {
        let n = self.pending.len();
        let mut k: usize = 0;
        while k < n && self.pending[k] != '\n'
            invariant
                k <= n == self.pending@.len(),
                forall|j: int| 0 <= j < k ==> self.pending@[j] != '\n',
            decreases n - k,
        {
            k = k + 1;
        }
        if k == n {
            return None;
        }
        let ghost s = self.pending@;
        assert(first_newline(s) == Some(k as int)) by {
            assert(s[k as int] == '\n');
            let c = choose|i: int| 0 <= i < s.len() && s[i] == '\n' && forall|j: int|
                0 <= j < i ==> s[j] != '\n';
            assert(0 <= c < s.len() && s[c] == '\n' && forall|j: int| 0 <= j < c ==> s[j] != '\n');
            if c < k {
            } else if c > k {
            }
        }
        let mut e: usize = k;
        while e > 0 && self.pending[e - 1] == '\r'
            invariant
                e <= k < n == self.pending@.len(),
                trim_end_char(s.take(k as int), '\r') == trim_end_char(s.take(e as int), '\r'),
                s == self.pending@,
            decreases e,
        {
            assert(s.take(e as int).drop_last() =~= s.take(e - 1));
            e = e - 1;
        }
        let mut raw: Vec<char> = Vec::new();
        for i in 0..e
            invariant
                e <= self.pending@.len(),
                s == self.pending@,
                raw@ == s.take(i as int),
        {
            raw.push(self.pending[i]);
            assert(s.take(i + 1) =~= s.take(i as int).push(s[i as int]));
        }
        assert(trim_end_char(s.take(e as int), '\r') == s.take(e as int));
        let mut rest: Vec<char> = Vec::new();
        for i in k + 1..n
            invariant
                n == self.pending@.len(),
                s == self.pending@,
                k < n,
                rest@ == s.subrange(k + 1, i as int),
        {
            rest.push(self.pending[i]);
            assert(s.subrange(k + 1, i + 1) =~= s.subrange(k + 1, i as int).push(s[i as int]));
        }
        assert(s.subrange(k + 1, n as int) =~= s.skip(k + 1));
        self.pending = rest;
        Some(classify_raw_line(&raw))
    }
}

/// The meaning of a raw line that has no carriage return at its end.
fn classify_raw_line(raw: &Vec<char>) -> (r: SseLine)
    requires
        trim_end_char(raw@, '\r') == raw@,
    ensures
        r@ == classify_line(raw@),
{
    let (a, b) = trim_bounds(raw);
    let ghost line = raw@.subrange(a as int, b as int);
    assert(line == trim(trim_end_char(raw@, '\r')));
    proof {
        reveal_strlit("data: ");
        reveal_strlit("[DONE]");
    }
    if b - a < 6 || raw[a] != 'd' || raw[a + 1] != 'a' || raw[a + 2] != 't' || raw[a + 3] != 'a'
        || raw[a + 4] != ':' || raw[a + 5] != ' ' {
        assert(!starts_with_seq(line, "data: "@)) by {
            if b - a >= 6 {
                assert(line.subrange(0, 6)[0] == line[0]);
                assert(line.subrange(0, 6)[1] == line[1]);
                assert(line.subrange(0, 6)[2] == line[2]);
                assert(line.subrange(0, 6)[3] == line[3]);
                assert(line.subrange(0, 6)[4] == line[4]);
                assert(line.subrange(0, 6)[5] == line[5]);
            }
        }
        return SseLine::Skip;
    }
    assert(line.subrange(0, 6) =~= "data: "@);
    let d = a + 6;
    let is_done = b - d == 6 && raw[d] == '[' && raw[d + 1] == 'D' && raw[d + 2] == 'O' && raw[d
        + 3] == 'N' && raw[d + 4] == 'E' && raw[d + 5] == ']';
    if is_done {
        assert(line.skip(6) =~= "[DONE]"@);
        return SseLine::Done;
    }
    assert(line.skip(6) != "[DONE]"@) by {
        if line.skip(6) == "[DONE]"@ {
            assert(line.skip(6).len() == 6);
            assert(line.skip(6)[0] == raw@[d as int]);
            assert(line.skip(6)[1] == raw@[d + 1]);
            assert(line.skip(6)[2] == raw@[d + 2]);
            assert(line.skip(6)[3] == raw@[d + 3]);
            assert(line.skip(6)[4] == raw@[d + 4]);
            assert(line.skip(6)[5] == raw@[d + 5]);
        }
    }
    let data = crate::text::string_from_chars(raw.as_slice(), d, b);
    assert(raw@.subrange(d as int, b as int) =~= line.skip(6));
    SseLine::Data(data)
}

/// Token counts that the server reports.
pub struct Usage {
    pub prompt_tokens: u32,
    pub completion_tokens: u32,
    pub total_tokens: u32,
}

/// The new parts of the assistant message that one choice of a chunk
/// carries.
pub struct StreamDelta {
    pub content: Option<String>,
    pub reasoning_content: Option<String>,
    pub tool_calls: Option<Vec<StreamToolCall>>,
}

/// One choice of a streamed chunk.
pub struct StreamChoice {
    pub delta: StreamDelta,
    pub finish_reason: Option<String>,
}

/// One chunk of a streamed chat completion.
pub struct StreamChunk {
    pub choices: Vec<StreamChoice>,
    pub usage: Option<Usage>,
}

/// The assistant message assembled from the whole stream.
pub struct AssistantMessage {
    pub content: Option<String>,
    pub tool_calls: Option<Vec<ToolCall>>,
    pub reasoning_content: Option<String>,
}

/// Everything received so far of one streamed reply.
pub struct StreamState {
    pub content: String,
    pub reasoning: String,
    pub tool_calls: Vec<PendingToolCall>,
    pub usage: Option<Usage>,
    pub finish_reason: Option<String>,
}

/// What a stream state holds, as text.
pub struct StreamStateView {
    pub content: Seq<char>,
    pub reasoning: Seq<char>,
    pub tool_calls: Seq<PendingView>,
    pub finish_reason: Option<Seq<char>>,
}

impl View for StreamState {
    type V = StreamStateView;

    open spec fn view(&self) -> StreamStateView {
        StreamStateView {
            content: self.content@,
            reasoning: self.reasoning@,
            tool_calls: pending_views(self.tool_calls@),
            finish_reason: opt_view(self.finish_reason),
        }
    }
}

/// The pending calls after a list of deltas, taken in order.
pub open spec fn merge_all(ps: Seq<PendingView>, tcs: Seq<StreamToolCall>) -> Seq<PendingView>
    decreases tcs.len(),
{
    if tcs.len() == 0 {
        ps
    } else {
        merge_into(merge_all(ps, tcs.drop_last()), tcs.last())
    }
}

/// Text followed by an optional addition.
pub open spec fn plus_opt(s: Seq<char>, add: Option<String>) -> Seq<char> {
    match add {
        Some(a) => s + a@,
        None => s,
    }
}

/// The state after one choice: a finish reason replaces the earlier one,
/// reasoning and content are appended, and tool-call deltas are merged.
pub open spec fn apply_choice(st: StreamStateView, c: StreamChoice) -> StreamStateView {
    StreamStateView {
        content: plus_opt(st.content, c.delta.content),
        reasoning: plus_opt(st.reasoning, c.delta.reasoning_content),
        tool_calls: match c.delta.tool_calls {
            Some(tcs) => merge_all(st.tool_calls, tcs@),
            None => st.tool_calls,
        },
        finish_reason: if c.finish_reason is Some {
            opt_view(c.finish_reason)
        } else {
            st.finish_reason
        },
    }
}

/// The state after the choices of a chunk, taken in order.
pub open spec fn apply_choices(st: StreamStateView, cs: Seq<StreamChoice>) -> StreamStateView
    decreases cs.len(),
{
    if cs.len() == 0 {
        st
    } else {
        apply_choice(apply_choices(st, cs.drop_last()), cs.last())
    }
}

/// Text that is absent where it is empty.
pub open spec fn nonempty_or_none(s: Seq<char>) -> Option<Seq<char>> {
    if s.len() == 0 {
        None
    } else {
        Some(s)
    }
}

impl StreamState {
    /// The state before any chunk.
    pub fn new() -> (st: StreamState)
        ensures
            st@.content.len() == 0,
            st@.reasoning.len() == 0,
            st@.tool_calls.len() == 0,
            st@.finish_reason is None,
            st.usage is None,
    {
        StreamState {
            content: String::new(),
            reasoning: String::new(),
            tool_calls: Vec::new(),
            usage: None,
            finish_reason: None,
        }
    }

    /// Takes in one chunk: its usage, where it has one, replaces the earlier
    /// one, and its choices are applied in order.
    pub fn apply_chunk(&mut self, chunk: StreamChunk)
        ensures
            final(self)@ == apply_choices(old(self)@, chunk.choices@),
            chunk.usage is Some ==> final(self).usage == chunk.usage,
            chunk.usage is None ==> final(self).usage == old(self).usage,
    {
        let StreamChunk { choices, usage } = chunk;
        if usage.is_some() {
            self.usage = usage;
        }
        let ghost start = self@;
        let ghost cs = choices@;
        let mut i: usize = 0;
        let n = choices.len();
        let mut choices = choices;
        while i < n
            invariant
                n == choices@.len(),
                i <= n,
                cs.len() == n,
                forall|j: int| i <= j < n ==> choices@[j] == cs[j],
                self@ == apply_choices(start, cs.take(i as int)),
                usage is Some ==> self.usage == usage,
                usage is None ==> self.usage == old(self).usage,
            decreases n - i,
        {
            let mut slot = StreamChoice {
                delta: StreamDelta { content: None, reasoning_content: None, tool_calls: None },
                finish_reason: None,
            };
            choices.set_and_swap(i, &mut slot);
            let c = slot;
            assert(c == cs[i as int]);
            assert(cs.take(i + 1).drop_last() =~= cs.take(i as int));
            self.apply_choice_exec(c);
            i = i + 1;
        }
        assert(cs.take(n as int) =~= cs);
    }

    /// Takes in one choice of a chunk.
    fn apply_choice_exec(&mut self, c: StreamChoice)
        ensures
            final(self)@ == apply_choice(old(self)@, c),
            final(self).usage == old(self).usage,
    {
        let ghost cc = c;
        let StreamChoice { delta, finish_reason } = c;
        if finish_reason.is_some() {
            self.finish_reason = finish_reason;
        }
        let StreamDelta { content, reasoning_content, tool_calls } = delta;
        if let Some(r) = reasoning_content {
            self.reasoning.append(r.as_str());
        }
        if let Some(t) = content {
            self.content.append(t.as_str());
        }
        if let Some(tcs) = tool_calls {
            let ghost all = tcs@;
            let ghost start = pending_views(self.tool_calls@);
            let ghost mid = self@;
            let ghost mid_usage = self.usage;
            let n = tcs.len();
            let mut tcs = tcs;
            let mut i: usize = 0;
            while i < n
                invariant
                    n == tcs@.len(),
                    all.len() == n,
                    i <= n,
                    forall|j: int| i <= j < n ==> tcs@[j] == all[j],
                    pending_views(self.tool_calls@) == merge_all(start, all.take(i as int)),
                    self.content@ == mid.content,
                    self.reasoning@ == mid.reasoning,
                    opt_view(self.finish_reason) == mid.finish_reason,
                    self.usage == mid_usage,
                decreases n - i,
            {
                let mut slot = StreamToolCall {
                    index: 0,
                    id: None,
                    call_type: None,
                    function: None,
                };
                tcs.set_and_swap(i, &mut slot);
                assert(slot == all[i as int]);
                assert(all.take(i + 1).drop_last() =~= all.take(i as int));
                merge_stream_tool_call(&mut self.tool_calls, slot);
                i = i + 1;
            }
            assert(all.take(n as int) =~= all);
        }
    }

    /// The assistant message of the whole stream: content and reasoning are
    /// absent where nothing arrived, and so are the tool calls where none
    /// of the pending calls received anything.
    pub fn finish(self) -> (m: AssistantMessage)
        ensures
            opt_view(m.content) == nonempty_or_none(self@.content),
            opt_view(m.reasoning_content) == nonempty_or_none(self@.reasoning),
            finalized(self@.tool_calls).len() == 0 ==> m.tool_calls is None,
            finalized(self@.tool_calls).len() > 0 ==> (m.tool_calls matches Some(ts) && call_views(
                ts@,
            ) == finalized(self@.tool_calls)),
    {
        let StreamState { content, reasoning, tool_calls, usage: _, finish_reason: _ } = self;
        let calls = finalize_stream_tool_calls(tool_calls);
        let content = if content.as_str().unicode_len() == 0 {
            None
        } else {
            Some(content)
        };
        let reasoning_content = if reasoning.as_str().unicode_len() == 0 {
            None
        } else {
            Some(reasoning)
        };
        let tool_calls = if calls.len() == 0 {
            None
        } else {
            Some(calls)
        };
        AssistantMessage { content, tool_calls, reasoning_content }
    }
}


/// The argument text of the pending call at `k`, empty where there is none.
pub open spec fn arguments_at(ps: Seq<PendingView>, k: int) -> Seq<char> {
    if 0 <= k < ps.len() {
        ps[k].arguments
    } else {
        Seq::empty()
    }
}

/// The argument fragments that a list of deltas addresses to the call at
/// `k`, joined in order.
pub open spec fn fragments_for(tcs: Seq<StreamToolCall>, k: int) -> Seq<char>
    decreases tcs.len(),
{
    if tcs.len() == 0 {
        Seq::empty()
    } else {
        let rest = fragments_for(tcs.drop_last(), k);
        let t = tcs.last();
        if t.index == k {
            match t.function {
                Some(f) => match f.arguments {
                    Some(a) => rest + a@,
                    None => rest,
                },
                None => rest,
            }
        } else {
            rest
        }
    }
}

/// A delta changes only the call at its index: the list grows just far
/// enough to hold that index, and every other call stays as it was.
pub proof fn law_delta_touches_only_its_call(ps: Seq<PendingView>, tc: StreamToolCall, j: int)
    requires
        0 <= j < ps.len(),
        j != tc.index,
    ensures
        merge_into(ps, tc)[j] == ps[j],
        merge_into(ps, tc).len() == if ps.len() <= tc.index {
            tc.index + 1
        } else {
            ps.len() as int
        },
{
}

/// Streamed argument text accumulates: after a list of deltas, the
/// arguments of the call at `k` are those it had, followed by every
/// fragment addressed to `k`, in the order they came.
pub proof fn law_arguments_accumulate(ps: Seq<PendingView>, tcs: Seq<StreamToolCall>, k: int)
    requires
        0 <= k,
    ensures
        arguments_at(merge_all(ps, tcs), k) == arguments_at(ps, k) + fragments_for(tcs, k),
    decreases tcs.len(),
{
    if tcs.len() == 0 {
        assert(arguments_at(ps, k) + Seq::<char>::empty() =~= arguments_at(ps, k));
    } else {
        let rest = tcs.drop_last();
        let t = tcs.last();
        law_arguments_accumulate(ps, rest, k);
        let m = merge_all(ps, rest);
        let padded = if m.len() <= t.index {
            m + Seq::new((t.index + 1 - m.len()) as nat, |i: int| empty_pending())
        } else {
            m
        };
        assert(0 <= k < padded.len() ==> padded[k].arguments == arguments_at(m, k));
        if t.index == k {
            assert(merge_all(ps, tcs)[k] == merged(padded[k], t));
            assert(arguments_at(merge_all(ps, tcs), k) =~= arguments_at(ps, k) + fragments_for(tcs, k));
        } else {
            assert(arguments_at(merge_all(ps, tcs), k) =~= arguments_at(m, k));
        }
    }
}

/// A line ending in a carriage return means what the line means without it,
/// so CRLF and LF line endings read alike.
pub proof fn law_carriage_return_ignored(line: Seq<char>)
    ensures
        classify_line(line.push('\r')) == classify_line(line),
{
    assert(line.push('\r').drop_last() =~= line);
}

/// A `data: ` line carries the text after the prefix: where that text is
/// not empty, does not end in whitespace and is not `[DONE]`, the line
/// means exactly that text.
pub proof fn law_data_line_carries_payload(payload: Seq<char>)
    requires
        payload.len() > 0,
        !is_ws(payload.last()),
        payload != "[DONE]"@,
    ensures
        classify_line("data: "@ + payload) == SseLineView::Data(payload),
{
    reveal_strlit("data: ");
    let line = "data: "@ + payload;
    assert(line.last() == payload.last());
    assert(line.last() != '\r');
    assert(trim_end_char(line, '\r') == line);
    assert(!is_ws(line[0]));
    assert(trim_start(line) == line);
    assert(trim_end(line) == line);
    assert(line.subrange(0, 6) =~= "data: "@);
    assert(line.skip(6) =~= payload);
}

} // verus!
