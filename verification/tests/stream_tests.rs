use uicontrol::stream::{
    finalize_stream_tool_calls, merge_stream_tool_call, PendingToolCall, SseBuffer, SseLine,
    StreamChoice, StreamChunk, StreamDelta, StreamFunction, StreamState, StreamToolCall, Usage,
};

fn delta(index: usize, id: Option<&str>, name: Option<&str>, args: Option<&str>) -> StreamToolCall {
    StreamToolCall {
        index,
        id: id.map(|s| s.to_string()),
        call_type: None,
        function: Some(StreamFunction {
            name: name.map(|s| s.to_string()),
            arguments: args.map(|s| s.to_string()),
        }),
    }
}

#[test]
fn argument_fragments_accumulate_per_call() {
    let mut pending: Vec<PendingToolCall> = Vec::new();
    merge_stream_tool_call(&mut pending, delta(0, Some("call_a"), Some("click"), Some("{\"x\":")));
    merge_stream_tool_call(&mut pending, delta(1, Some("call_b"), Some("wait"), Some("{}")));
    merge_stream_tool_call(&mut pending, delta(0, None, None, Some("5}")));
    assert_eq!(pending.len(), 2);
    assert_eq!(pending[0].arguments, "{\"x\":5}");
    assert_eq!(pending[0].name.as_deref(), Some("click"));
    assert_eq!(pending[1].arguments, "{}");
    let calls = finalize_stream_tool_calls(pending);
    assert_eq!(calls.len(), 2);
    assert_eq!(calls[0].id, "call_a");
    assert_eq!(calls[0].call_type, "function");
    assert_eq!(calls[0].function.name, "click");
    assert_eq!(calls[0].function.arguments, "{\"x\":5}");
}

#[test]
fn gaps_are_filled_and_empty_calls_dropped() {
    let mut pending: Vec<PendingToolCall> = Vec::new();
    merge_stream_tool_call(&mut pending, delta(2, None, Some("hover"), None));
    assert_eq!(pending.len(), 3);
    let calls = finalize_stream_tool_calls(pending);
    assert_eq!(calls.len(), 1);
    assert_eq!(calls[0].id, "stream_call_2");
    assert_eq!(calls[0].function.name, "hover");
    assert_eq!(calls[0].function.arguments, "");
}

#[test]
fn later_id_and_name_replace_earlier_ones() {
    let mut pending: Vec<PendingToolCall> = Vec::new();
    merge_stream_tool_call(&mut pending, delta(0, Some("x"), Some("a"), None));
    merge_stream_tool_call(&mut pending, delta(0, Some("y"), Some("b"), None));
    assert_eq!(pending[0].id.as_deref(), Some("y"));
    assert_eq!(pending[0].name.as_deref(), Some("b"));
}

#[test]
fn event_stream_lines_are_cut_and_classified() {
    let mut buf = SseBuffer::new();
    buf.push_text("data: {\"a\":1}\r\n\n: comment\ndata: [DO");
    assert!(matches!(buf.next_line(), Some(SseLine::Data(ref d)) if d == "{\"a\":1}"));
    assert!(matches!(buf.next_line(), Some(SseLine::Skip)));
    assert!(matches!(buf.next_line(), Some(SseLine::Skip)));
    assert!(buf.next_line().is_none());
    buf.push_text("NE]\n");
    assert!(matches!(buf.next_line(), Some(SseLine::Done)));
    assert!(buf.next_line().is_none());
}

#[test]
fn data_prefix_needs_its_space() {
    let mut buf = SseBuffer::new();
    buf.push_text("data:{}\n  data: x  \n");
    assert!(matches!(buf.next_line(), Some(SseLine::Skip)));
    assert!(matches!(buf.next_line(), Some(SseLine::Data(ref d)) if d == "x"));
}

fn choice(content: Option<&str>, reasoning: Option<&str>, tcs: Option<Vec<StreamToolCall>>, finish: Option<&str>) -> StreamChoice {
    StreamChoice {
        delta: StreamDelta {
            content: content.map(|s| s.to_string()),
            reasoning_content: reasoning.map(|s| s.to_string()),
            tool_calls: tcs,
        },
        finish_reason: finish.map(|s| s.to_string()),
    }
}

#[test]
fn stream_state_assembles_the_reply() {
    let mut st = StreamState::new();
    st.apply_chunk(StreamChunk { choices: vec![choice(Some("你"), Some("想"), None, None)], usage: None });
    st.apply_chunk(StreamChunk {
        choices: vec![choice(Some("好"), None, Some(vec![delta(0, Some("c"), Some("wait"), Some("{}"))]), Some("tool_calls"))],
        usage: Some(Usage { prompt_tokens: 1, completion_tokens: 2, total_tokens: 3 }),
    });
    assert_eq!(st.finish_reason.as_deref(), Some("tool_calls"));
    assert_eq!(st.usage.as_ref().map(|u| u.total_tokens), Some(3));
    let m = st.finish();
    assert_eq!(m.content.as_deref(), Some("你好"));
    assert_eq!(m.reasoning_content.as_deref(), Some("想"));
    let calls = m.tool_calls.unwrap();
    assert_eq!(calls.len(), 1);
    assert_eq!(calls[0].function.name, "wait");
}

#[test]
fn empty_stream_gives_an_empty_reply() {
    let m = StreamState::new().finish();
    assert!(m.content.is_none());
    assert!(m.reasoning_content.is_none());
    assert!(m.tool_calls.is_none());
}
