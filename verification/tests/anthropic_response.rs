use potatohead::anthropic::response::{
    AnthropicMessageResponse, ResponseContentBlock, ResponseContentBlockInner, StopReason, TextBlock, ThinkingBlock,
    ToolUseBlock, Usage,
};
use potatohead::json::Json;
use potatohead::response::ResponseContent;

fn obj(entries: Vec<(&str, Json)>) -> Json {
    Json::Object(entries.into_iter().map(|(k, v)| (k.to_string(), v)).collect())
}

fn s(v: &str) -> Json {
    Json::Str(v.to_string())
}

fn make_text_block(text: &str) -> ResponseContentBlock {
    ResponseContentBlock {
        inner: ResponseContentBlockInner::Text(TextBlock {
            text: text.to_string(),
            citations: None,
            kind: "text".to_string(),
        }),
    }
}

fn make_thinking_block(thinking: &str) -> ResponseContentBlock {
    ResponseContentBlock {
        inner: ResponseContentBlockInner::Thinking(ThinkingBlock {
            thinking: thinking.to_string(),
            signature: None,
            kind: "thinking".to_string(),
        }),
    }
}

fn make_tool_use_block(id: &str, name: &str, input: Json) -> ResponseContentBlock {
    ResponseContentBlock {
        inner: ResponseContentBlockInner::ToolUse(ToolUseBlock {
            id: id.to_string(),
            name: name.to_string(),
            input,
            kind: "tool_use".to_string(),
        }),
    }
}

fn make_usage() -> Usage {
    Usage {
        input_tokens: 100,
        output_tokens: 50,
        cache_creation_input_tokens: Some(10),
        cache_read_input_tokens: Some(5),
        service_tier: None,
    }
}

fn make_response(id: &str, stop_reason: Option<StopReason>, content: Vec<ResponseContentBlock>) -> AnthropicMessageResponse {
    AnthropicMessageResponse {
        id: id.to_string(),
        model: "sonnet-4-20250514".to_string(),
        role: "assistant".to_string(),
        stop_reason,
        stop_sequence: None,
        kind: "message".to_string(),
        usage: make_usage(),
        content,
    }
}

fn make_text_response(text: &str) -> AnthropicMessageResponse {
    make_response("msg_abc123", Some(StopReason::EndTurn), vec![make_text_block(text)])
}

fn make_tool_use_response() -> AnthropicMessageResponse {
    make_response(
        "msg_tool456",
        Some(StopReason::ToolUse),
        vec![
            make_text_block("I'll look up the weather for you."),
            make_tool_use_block("toolu_01", "get_weather", obj(vec![("location", s("NYC"))])),
        ],
    )
}

fn make_empty_response() -> AnthropicMessageResponse {
    make_response("msg_empty", None, vec![])
}

#[test]
fn response_test_id() {
    assert_eq!(make_text_response("hi").id(), "msg_abc123");
}

#[test]
fn response_test_is_empty() {
    assert!(!make_text_response("hi").is_empty());
    assert!(make_empty_response().is_empty());
}

#[test]
fn response_test_response_text() {
    assert_eq!(make_text_response("hello world").response_text(), "hello world");
    assert_eq!(make_empty_response().response_text(), "");
}

#[test]
fn test_response_text_tool_use_first_block() {
    let resp = make_tool_use_response();
    assert_eq!(resp.response_text(), "I'll look up the weather for you.");
}

#[test]
fn test_response_text_thinking_block_first() {
    let resp = make_response(
        "msg_think",
        Some(StopReason::EndTurn),
        vec![make_thinking_block("let me think..."), make_text_block("final")],
    );
    assert_eq!(resp.response_text(), "final");
}

#[test]
fn test_response_text_only_thinking_block() {
    let resp = make_response(
        "msg_think_only",
        Some(StopReason::EndTurn),
        vec![make_thinking_block("only thinking, no text")],
    );
    assert_eq!(resp.response_text(), "");
}

#[test]
fn test_response_text_tool_use_then_text() {
    let resp = make_response(
        "msg_reversed",
        Some(StopReason::EndTurn),
        vec![make_tool_use_block("toolu_01", "get_weather", obj(vec![])), make_text_block("final answer")],
    );
    assert_eq!(resp.response_text(), "final answer");
}

#[test]
fn response_test_model_name() {
    assert_eq!(make_text_response("x").model_name(), Some("sonnet-4-20250514"));
}

#[test]
fn response_test_finish_reason() {
    assert_eq!(make_text_response("x").finish_reason(), Some("end_turn"));
    assert_eq!(make_tool_use_response().finish_reason(), Some("tool_use"));
    assert_eq!(make_empty_response().finish_reason(), None);
}

#[test]
fn test_finish_reason_all_variants() {
    let mut resp = make_text_response("x");
    resp.stop_reason = Some(StopReason::MaxTokens);
    assert_eq!(resp.finish_reason(), Some("max_tokens"));
    resp.stop_reason = Some(StopReason::StopSequence);
    assert_eq!(resp.finish_reason(), Some("stop_sequence"));
}

#[test]
fn response_test_token_counts() {
    let resp = make_text_response("x");
    assert_eq!(resp.input_tokens(), Some(100));
    assert_eq!(resp.output_tokens(), Some(50));
    assert_eq!(resp.total_tokens(), Some(150));
}

#[test]
fn response_test_get_tool_calls() {
    let calls = make_tool_use_response().get_tool_calls();
    assert_eq!(calls.len(), 1);
    assert_eq!(calls[0].name, "get_weather");
    assert_eq!(calls[0].call_id, Some("toolu_01".to_string()));
    assert_eq!(calls[0].arguments, obj(vec![("location", s("NYC"))]));
}

#[test]
fn response_test_get_tool_calls_empty() {
    assert!(make_text_response("hello").get_tool_calls().is_empty());
    assert!(make_empty_response().get_tool_calls().is_empty());
}

#[test]
fn response_test_tool_call_output() {
    let resp = make_tool_use_response();
    let output = resp.tool_call_output();
    assert!(output.is_some());
}

#[test]
fn anthropic_tool_call_output_fields() {
    let output = make_tool_use_response().tool_call_output().unwrap();
    assert_eq!(output.get("id"), Some(&s("toolu_01")));
    assert_eq!(output.get("name"), Some(&s("get_weather")));
    assert_eq!(output.get("type"), Some(&s("tool_use")));
    assert_eq!(output.get("input"), Some(&obj(vec![("location", s("NYC"))])));
}

#[test]
fn response_test_tool_call_output_none_for_text() {
    assert!(make_text_response("hello").tool_call_output().is_none());
}

#[test]
fn response_test_structured_output_value_valid_json() {
    let resp = make_text_response(r#"{"name":"Bob","score":95}"#);
    let val = resp.structured_output_value();
    assert!(val.is_some());
    let obj = val.unwrap();
    assert_eq!(obj.get("name"), Some(&s("Bob")));
    assert_eq!(obj.get("score"), Some(&Json::Number("95".to_string())));
}

#[test]
fn response_test_structured_output_value_plain_text() {
    assert!(make_text_response("not json").structured_output_value().is_none());
}

#[test]
fn response_test_structured_output_value_empty() {
    assert!(make_empty_response().structured_output_value().is_none());
}

#[test]
fn test_structured_output_thinking_block_first() {
    let resp = make_response(
        "msg_think_struct",
        Some(StopReason::EndTurn),
        vec![make_thinking_block("let me think..."), make_text_block(r#"{"name":"Alice","score":99}"#)],
    );
    let val = resp.structured_output_value();
    assert!(val.is_some());
    let obj = val.unwrap();
    assert_eq!(obj.get("name"), Some(&s("Alice")));
    assert_eq!(obj.get("score"), Some(&Json::Number("99".to_string())));
}

#[test]
fn response_test_get_log_probs_always_empty() {
    assert!(make_text_response("x").get_log_probs().is_empty());
}

#[test]
fn response_test_to_message_num() {
    let resp = make_text_response("hello");
    let msgs = resp.to_message_num().unwrap();
    assert_eq!(msgs.len(), 1);
}

#[test]
fn response_test_to_message_num_empty() {
    let resp = make_empty_response();
    let msgs = resp.to_message_num().unwrap();
    assert!(msgs.is_empty());
}

#[test]
fn test_multiple_tool_use_blocks() {
    let resp = make_response(
        "msg_multi",
        Some(StopReason::ToolUse),
        vec![
            make_tool_use_block("toolu_01", "search", obj(vec![("q", s("rust"))])),
            make_tool_use_block("toolu_02", "read_file", obj(vec![("path", s("/tmp"))])),
        ],
    );
    let calls = resp.get_tool_calls();
    assert_eq!(calls.len(), 2);
    assert_eq!(calls[0].name, "search");
    assert_eq!(calls[1].name, "read_file");
}

#[test]
fn anthropic_response_text_is_last_text_block() {
    let resp = make_response(
        "msg_two",
        Some(StopReason::EndTurn),
        vec![make_text_block("first"), make_thinking_block("t"), make_text_block("second")],
    );
    assert_eq!(resp.response_text(), "second");
}

#[test]
fn test_get_content_empty_response_no_panic() {
    let resp = make_empty_response();
    let content = resp.get_content();
    // An empty answer gives an empty text block rather than a panic.
    let block = match content {
        ResponseContent::Anthropic(b) => b,
        _ => panic!("expected an Anthropic block"),
    };
    match block.inner {
        ResponseContentBlockInner::Text(t) => {
            assert_eq!(t.text, "");
            assert!(t.citations.is_none());
            assert_eq!(t.kind, "text");
        }
        _ => panic!("expected a text block"),
    }
}

#[test]
fn get_content_gives_first_block() {
    let resp = make_response(
        "msg_first",
        None,
        vec![
            ResponseContentBlock {
                inner: ResponseContentBlockInner::Thinking(ThinkingBlock {
                    thinking: "hmm".to_string(),
                    signature: None,
                    kind: "thinking".to_string(),
                }),
            },
            ResponseContentBlock {
                inner: ResponseContentBlockInner::Text(TextBlock {
                    text: "answer".to_string(),
                    citations: None,
                    kind: "text".to_string(),
                }),
            },
        ],
    );
    let content = resp.get_content();
    assert_eq!(content, ResponseContent::Anthropic(resp.content[0].duplicate()));
}
