use potatohead::json::Json;
use potatohead::response::ResponseContent;
use potatohead::openai::response::{
    ChatCompletionMessage, Choice, CompletionTokenDetails, Function, LogContent, LogProbs, OpenAIChatResponse,
    PromptTokenDetails, ToolCall, Usage,
};

fn message(content: Option<&str>, tool_calls: Vec<ToolCall>) -> ChatCompletionMessage {
    ChatCompletionMessage {
        content: content.map(|c| c.to_string()),
        refusal: None,
        role: "assistant".to_string(),
        annotations: vec![],
        tool_calls,
        audio: None,
    }
}

fn usage(completion: u64, prompt: u64, total: u64) -> Usage {
    Usage {
        completion_tokens: completion,
        prompt_tokens: prompt,
        total_tokens: total,
        completion_tokens_details: CompletionTokenDetails::default(),
        prompt_tokens_details: PromptTokenDetails::default(),
        finish_reason: None,
    }
}

fn response(id: &str, choices: Vec<Choice>, usage: Usage) -> OpenAIChatResponse {
    OpenAIChatResponse {
        id: id.to_string(),
        object: "chat.completion".to_string(),
        created: 1700000000,
        model: "gpt-4o".to_string(),
        choices,
        usage,
        service_tier: None,
        system_fingerprint: None,
    }
}

fn make_text_response(text: &str) -> OpenAIChatResponse {
    let mut r = response(
        "chatcmpl-abc123",
        vec![Choice { message: message(Some(text), vec![]), finish_reason: "stop".to_string(), logprobs: None }],
        usage(10, 20, 30),
    );
    r.system_fingerprint = Some("fp_abc123".to_string());
    r
}

fn tool_call(id: &str, name: &str, arguments: &str) -> ToolCall {
    ToolCall {
        id: id.to_string(),
        kind: "function".to_string(),
        function: Function { name: name.to_string(), arguments: arguments.to_string() },
    }
}

fn make_tool_call_response() -> OpenAIChatResponse {
    response(
        "chatcmpl-tool456",
        vec![Choice {
            message: message(
                None,
                vec![
                    tool_call("call_1", "get_weather", r#"{"location":"NYC"}"#),
                    tool_call("call_2", "get_time", r#"{"timezone":"EST"}"#),
                ],
            ),
            finish_reason: "tool_calls".to_string(),
            logprobs: None,
        }],
        usage(5, 15, 20),
    )
}

fn make_empty_response() -> OpenAIChatResponse {
    response("chatcmpl-empty", vec![], usage(0, 0, 0))
}

fn log_content(token: &str, logprob: f64) -> LogContent {
    LogContent { bytes: None, logprob_bits: logprob.to_bits(), token: token.to_string(), top_logprobs: None }
}

#[test]
fn test_id() {
    let resp = make_text_response("hello");
    assert_eq!(resp.id(), "chatcmpl-abc123");
}

#[test]
fn test_is_empty() {
    assert!(!make_text_response("hello").is_empty());
    assert!(make_empty_response().is_empty());
}

#[test]
fn test_response_text() {
    assert_eq!(make_text_response("hello world").response_text(), "hello world");
    assert_eq!(make_empty_response().response_text(), "");
}

#[test]
fn test_response_text_with_no_content() {
    let resp = make_tool_call_response();
    assert_eq!(resp.response_text(), "");
}

#[test]
fn test_model_name() {
    assert_eq!(make_text_response("x").model_name(), Some("gpt-4o"));
}

#[test]
fn test_finish_reason() {
    assert_eq!(make_text_response("x").finish_reason(), Some("stop"));
    assert_eq!(make_tool_call_response().finish_reason(), Some("tool_calls"));
    assert_eq!(make_empty_response().finish_reason(), None);
}

#[test]
fn test_token_counts() {
    let resp = make_text_response("hello");
    assert_eq!(resp.input_tokens(), Some(20));
    assert_eq!(resp.output_tokens(), Some(10));
    assert_eq!(resp.total_tokens(), Some(30));
}

#[test]
fn test_get_tool_calls() {
    let calls = make_tool_call_response().get_tool_calls();
    assert_eq!(calls.len(), 2);
    assert_eq!(calls[0].name, "get_weather");
    assert_eq!(calls[0].call_id, Some("call_1".to_string()));
    assert_eq!(calls[1].name, "get_time");
    assert_eq!(calls[1].call_id, Some("call_2".to_string()));
}

#[test]
fn openai_tool_call_arguments_stay_text() {
    let calls = make_tool_call_response().get_tool_calls();
    assert_eq!(calls[0].arguments, Json::Str(r#"{"location":"NYC"}"#.to_string()));
    assert!(calls[0].result.is_none());
}

#[test]
fn test_get_tool_calls_empty() {
    assert!(make_text_response("hello").get_tool_calls().is_empty());
    assert!(make_empty_response().get_tool_calls().is_empty());
}

#[test]
fn test_tool_call_output() {
    let resp = make_tool_call_response();
    let output = resp.tool_call_output();
    assert!(output.is_some());
    let arr = output.unwrap();
    assert!(arr.is_array());
    match arr {
        Json::Array(items) => assert_eq!(items.len(), 2),
        _ => panic!("expected an array"),
    }
}

#[test]
fn test_tool_call_output_none_for_text() {
    assert!(make_text_response("hello").tool_call_output().is_none());
    assert!(make_empty_response().tool_call_output().is_none());
}

#[test]
fn test_structured_output_value_valid_json() {
    let resp = make_text_response(r#"{"name":"Alice","age":30}"#);
    let val = resp.structured_output_value();
    assert!(val.is_some());
    let obj = val.unwrap();
    assert_eq!(obj.get("name"), Some(&Json::Str("Alice".to_string())));
    assert_eq!(obj.get("age"), Some(&Json::Number("30".to_string())));
}

#[test]
fn test_structured_output_value_plain_text() {
    let resp = make_text_response("just plain text");
    assert!(resp.structured_output_value().is_none());
}

#[test]
fn test_structured_output_value_empty() {
    assert!(make_empty_response().structured_output_value().is_none());
}

#[test]
fn test_to_message_num() {
    let resp = make_text_response("hello");
    let msgs = resp.to_message_num().unwrap();
    assert_eq!(msgs.len(), 1);
}

#[test]
fn test_to_message_num_empty() {
    let resp = make_empty_response();
    let msgs = resp.to_message_num().unwrap();
    assert!(msgs.is_empty());
}

#[test]
fn test_get_log_probs_with_digits() {
    let mut resp = make_empty_response();
    resp.choices = vec![Choice {
        message: ChatCompletionMessage {
            content: None,
            refusal: None,
            role: String::new(),
            annotations: vec![],
            tool_calls: vec![],
            audio: None,
        },
        finish_reason: "stop".to_string(),
        logprobs: Some(LogProbs {
            content: Some(vec![log_content("3", -0.5), log_content("hello", -1.0), log_content("5", -0.2)]),
            refusal: None,
        }),
    }];
    let probs = resp.get_log_probs();
    assert_eq!(probs.len(), 2);
    assert_eq!(probs[0].token, "3");
    assert!((f64::from_bits(probs[0].logprob_bits) - (-0.5)).abs() < f64::EPSILON);
    assert_eq!(probs[1].token, "5");
}

#[test]
fn test_get_log_probs_empty() {
    assert!(make_text_response("hello").get_log_probs().is_empty());
    assert!(make_empty_response().get_log_probs().is_empty());
}

#[test]
fn openai_get_content_gives_the_first_choice() {
    let resp = make_tool_call_response();
    assert_eq!(resp.get_content(), ResponseContent::OpenAI(resp.choices[0].clone()));
}

#[test]
fn openai_get_content_of_an_empty_answer_is_empty() {
    let c = match make_empty_response().get_content() {
        ResponseContent::OpenAI(c) => c,
        _ => panic!("expected an OpenAI choice"),
    };
    assert_eq!(c.message.content, None);
    assert_eq!(c.message.role, "");
    assert!(c.message.tool_calls.is_empty());
    assert_eq!(c.finish_reason, "");
    assert!(c.logprobs.is_none());
}
