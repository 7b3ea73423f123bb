use potatohead::google::request::{DataNum, FunctionCall, GeminiContent, Part};
use potatohead::google::response::{
    Candidate, FinishReason, GenerateContentResponse, LogprobsCandidate, LogprobsResult, UsageMetadata,
};
use potatohead::json::Json;
use potatohead::response::ResponseContent;

fn make_candidate(parts: Vec<Part>, finish: Option<FinishReason>) -> Candidate {
    Candidate {
        index: Some(0),
        content: GeminiContent { role: "model".to_string(), parts },
        avg_logprob_bits: None,
        logprobs_result: None,
        finish_reason: finish,
        safety_ratings: None,
        citation_metadata: None,
        grounding_metadata: None,
        url_context_metadata: None,
        finish_message: None,
    }
}

fn make_text_candidate(text: &str, finish: Option<FinishReason>) -> Candidate {
    make_candidate(vec![Part::from_text(text.to_string())], finish)
}

fn usage(prompt: i32, candidates: i32, total: i32) -> UsageMetadata {
    UsageMetadata {
        prompt_token_count: Some(prompt),
        candidates_token_count: Some(candidates),
        tool_use_prompt_token_count: None,
        thoughts_token_count: None,
        total_token_count: Some(total),
        cached_content_token_count: None,
        prompt_tokens_details: None,
        cache_tokens_details: None,
        candidates_tokens_details: None,
        tool_use_prompt_tokens_details: None,
        traffic_type: None,
    }
}

fn make_text_response(text: &str) -> GenerateContentResponse {
    GenerateContentResponse {
        candidates: vec![make_text_candidate(text, Some(FinishReason::Stop))],
        model_version: Some("gemini-2.0-flash".to_string()),
        create_time: None,
        response_id: Some("resp-123".to_string()),
        prompt_feedback: None,
        usage_metadata: Some(usage(20, 10, 30)),
    }
}

fn function_call_part(name: &str, id: Option<&str>, args: Option<Json>) -> Part {
    Part::from_data(DataNum::FunctionCall(FunctionCall {
        name: name.to_string(),
        id: id.map(|i| i.to_string()),
        args,
        will_continue: None,
    }))
}

fn nyc() -> Json {
    Json::Object(vec![("location".to_string(), Json::Str("NYC".to_string()))])
}

fn make_function_call_response() -> GenerateContentResponse {
    GenerateContentResponse {
        candidates: vec![make_candidate(
            vec![function_call_part("get_weather", Some("fc_01"), Some(nyc()))],
            Some(FinishReason::Stop),
        )],
        model_version: Some("gemini-2.0-flash".to_string()),
        create_time: None,
        response_id: Some("resp-fc".to_string()),
        prompt_feedback: None,
        usage_metadata: Some(usage(15, 5, 20)),
    }
}

fn make_empty_response() -> GenerateContentResponse {
    GenerateContentResponse {
        candidates: vec![],
        model_version: Some("gemini-2.0-flash".to_string()),
        create_time: None,
        response_id: None,
        prompt_feedback: None,
        usage_metadata: None,
    }
}

#[test]
fn gemini_response_test_id() {
    assert_eq!(make_text_response("hi").id(), "resp-123");
    assert_eq!(make_empty_response().id(), "");
}

#[test]
fn gemini_response_test_is_empty() {
    assert!(!make_text_response("hi").is_empty());
    assert!(make_empty_response().is_empty());
}

#[test]
fn gemini_response_test_response_text() {
    assert_eq!(make_text_response("hello world").response_text(), "hello world");
    assert_eq!(make_empty_response().response_text(), "");
}

#[test]
fn test_response_text_function_call() {
    assert_eq!(make_function_call_response().response_text(), "");
}

#[test]
fn gemini_response_test_model_name() {
    assert_eq!(make_text_response("x").model_name(), Some("gemini-2.0-flash"));
}

#[test]
fn gemini_response_test_finish_reason() {
    assert_eq!(make_text_response("x").finish_reason(), Some("STOP"));
    assert_eq!(make_empty_response().finish_reason(), None);
}

#[test]
fn test_finish_reason_variants() {
    let mut resp = make_text_response("x");
    resp.candidates[0].finish_reason = Some(FinishReason::MaxTokens);
    assert_eq!(resp.finish_reason(), Some("MAX_TOKENS"));
    resp.candidates[0].finish_reason = Some(FinishReason::Safety);
    assert_eq!(resp.finish_reason(), Some("SAFETY"));
    resp.candidates[0].finish_reason = Some(FinishReason::MalformedFunctionCall);
    assert_eq!(resp.finish_reason(), Some("MALFORMED_FUNCTION_CALL"));
}

#[test]
fn gemini_response_test_token_counts() {
    let resp = make_text_response("x");
    assert_eq!(resp.input_tokens(), Some(20));
    assert_eq!(resp.output_tokens(), Some(10));
    assert_eq!(resp.total_tokens(), Some(30));
}

#[test]
fn response_test_token_counts_no_metadata() {
    let resp = make_empty_response();
    assert_eq!(resp.input_tokens(), None);
    assert_eq!(resp.output_tokens(), None);
    assert_eq!(resp.total_tokens(), None);
}

#[test]
fn gemini_response_test_get_tool_calls() {
    let calls = make_function_call_response().get_tool_calls();
    assert_eq!(calls.len(), 1);
    assert_eq!(calls[0].name, "get_weather");
    assert_eq!(calls[0].call_id, Some("fc_01".to_string()));
    assert_eq!(calls[0].arguments, nyc());
}

#[test]
fn gemini_response_test_get_tool_calls_empty() {
    assert!(make_text_response("hello").get_tool_calls().is_empty());
    assert!(make_empty_response().get_tool_calls().is_empty());
}

#[test]
fn gemini_response_test_tool_call_output() {
    let resp = make_function_call_response();
    let output = resp.tool_call_output();
    assert!(output.is_some());
}

#[test]
fn gemini_tool_call_output_fields() {
    let output = make_function_call_response().tool_call_output().unwrap();
    assert_eq!(output.get("name"), Some(&Json::Str("get_weather".to_string())));
    assert_eq!(output.get("id"), Some(&Json::Str("fc_01".to_string())));
    assert_eq!(output.get("args"), Some(&nyc()));
    assert_eq!(output.get("will_continue"), None);
}

#[test]
fn gemini_response_test_tool_call_output_none_for_text() {
    assert!(make_text_response("hello").tool_call_output().is_none());
}

#[test]
fn gemini_response_test_structured_output_value_valid_json() {
    let resp = make_text_response(r#"{"key":"value"}"#);
    let val = resp.structured_output_value();
    assert!(val.is_some());
    assert_eq!(val.unwrap().get("key"), Some(&Json::Str("value".to_string())));
}

#[test]
fn gemini_response_test_structured_output_value_plain_text() {
    assert!(make_text_response("not json").structured_output_value().is_none());
}

#[test]
fn gemini_response_test_structured_output_value_empty() {
    assert!(make_empty_response().structured_output_value().is_none());
}

#[test]
fn gemini_response_test_to_message_num() {
    let resp = make_text_response("hello");
    let msgs = resp.to_message_num().unwrap();
    assert_eq!(msgs.len(), 1);
}

#[test]
fn gemini_response_test_to_message_num_empty() {
    let resp = make_empty_response();
    let msgs = resp.to_message_num().unwrap();
    assert!(msgs.is_empty());
}

#[test]
fn response_test_get_log_probs_with_digits() {
    let mut candidate = make_text_candidate("text", Some(FinishReason::Stop));
    candidate.logprobs_result = Some(LogprobsResult {
        top_candidates: None,
        chosen_candidates: Some(vec![
            LogprobsCandidate {
                token: Some("4".to_string()),
                token_id: Some(1),
                log_probability_bits: Some((-0.3f64).to_bits()),
            },
            LogprobsCandidate {
                token: Some("hello".to_string()),
                token_id: Some(2),
                log_probability_bits: Some((-1.5f64).to_bits()),
            },
        ]),
    });
    let resp = GenerateContentResponse {
        candidates: vec![candidate],
        model_version: None,
        create_time: None,
        response_id: None,
        prompt_feedback: None,
        usage_metadata: None,
    };
    let probs = resp.get_log_probs();
    assert_eq!(probs.len(), 1);
    assert_eq!(probs[0].token, "4");
    assert!((f64::from_bits(probs[0].logprob_bits) - (-0.3)).abs() < f64::EPSILON);
}

#[test]
fn response_test_get_log_probs_empty() {
    assert!(make_text_response("x").get_log_probs().is_empty());
}

#[test]
fn test_function_call_no_args() {
    let resp = GenerateContentResponse {
        candidates: vec![make_candidate(vec![function_call_part("no_args_fn", None, None)], Some(FinishReason::Stop))],
        model_version: None,
        create_time: None,
        response_id: None,
        prompt_feedback: None,
        usage_metadata: None,
    };
    let calls = resp.get_tool_calls();
    assert_eq!(calls.len(), 1);
    assert_eq!(calls[0].name, "no_args_fn");
    assert_eq!(calls[0].call_id, None);
    assert_eq!(calls[0].arguments, Json::Null);
}

#[test]
fn gemini_get_content_gives_the_first_candidate() {
    let resp = make_function_call_response();
    let c = resp.get_content();
    assert_eq!(c, ResponseContent::Google(resp.candidates[0].duplicate()));
    match c {
        ResponseContent::Google(c) => assert_eq!(c.finish_reason, Some(FinishReason::Stop)),
        _ => panic!("expected a Gemini candidate"),
    }
}
