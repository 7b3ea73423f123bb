use potatohead::google::adk::{AdkContent, AdkLlmResponse, AdkPart, AdkUsageMetadata};
use potatohead::google::grounding::{
    Citation, CitationMetadata, GoogleDate, GroundingChunk, GroundingChunkType, GroundingMetadata, GroundingSupport, Web,
};
use potatohead::google::request::{DataNum, FunctionCall};
use potatohead::google::response::{FinishReason, LogprobsCandidate, LogprobsResult};
use potatohead::json::Json;
use potatohead::response::ResponseContent;

fn text_part(text: &str) -> AdkPart {
    let mut p = AdkPart::empty();
    p.text = Some(text.to_string());
    p
}

fn usage() -> AdkUsageMetadata {
    AdkUsageMetadata {
        prompt_token_count: Some(20),
        candidates_token_count: Some(10),
        total_token_count: Some(30),
        cached_content_token_count: None,
        thoughts_token_count: None,
        tool_use_prompt_token_count: None,
    }
}

fn base(content: Option<AdkContent>) -> AdkLlmResponse {
    AdkLlmResponse {
        model_version: Some("google/gemini-3-flash-preview".to_string()),
        content,
        grounding_metadata: None,
        partial: Some(false),
        turn_complete: None,
        finish_reason: None,
        error_code: None,
        error_message: None,
        interrupted: None,
        usage_metadata: None,
        avg_logprob_bits: None,
        logprobs_result: None,
        cache_metadata: None,
        citation_metadata: None,
        interaction_id: None,
        live_session_resumption_update: None,
        input_transcription: None,
        output_transcription: None,
        custom_metadata: None,
    }
}

fn make_text_adk_response(text: &str) -> AdkLlmResponse {
    let mut r = base(Some(AdkContent { role: "model".to_string(), parts: vec![text_part(text)] }));
    r.turn_complete = Some(true);
    r.finish_reason = Some(FinishReason::Stop);
    r.usage_metadata = Some(usage());
    r.interaction_id = Some("test-interaction".to_string());
    r
}

fn agent_args() -> Json {
    Json::Object(vec![("agent_name".to_string(), Json::Str("MeatRecipeAgent".to_string()))])
}

fn make_function_call_adk_response() -> AdkLlmResponse {
    let mut part = AdkPart::empty();
    part.function_call =
        Some(FunctionCall { name: "transfer_to_agent".to_string(), id: None, args: Some(agent_args()), will_continue: None });
    let mut r = base(Some(AdkContent { role: "model".to_string(), parts: vec![part] }));
    r.finish_reason = Some(FinishReason::Stop);
    r.usage_metadata = Some(AdkUsageMetadata {
        prompt_token_count: Some(15),
        candidates_token_count: Some(5),
        total_token_count: Some(20),
        cached_content_token_count: None,
        thoughts_token_count: None,
        tool_use_prompt_token_count: None,
    });
    r
}

fn make_empty_adk_response() -> AdkLlmResponse {
    base(None)
}

#[test]
fn test_response_text_empty() {
    assert_eq!(make_empty_adk_response().response_text(), "");
}

#[test]
fn adk_response_test_is_empty() {
    assert!(!make_text_adk_response("hello").is_empty());
    assert!(make_empty_adk_response().is_empty());
}

#[test]
fn adk_response_test_response_text() {
    assert_eq!(make_text_adk_response("hello world").response_text(), "hello world");
}

#[test]
fn adk_response_text_skips_empty_text() {
    let r = base(Some(AdkContent {
        role: "model".to_string(),
        parts: vec![text_part("first"), text_part(""), AdkPart::empty()],
    }));
    assert_eq!(r.response_text(), "first");
}

#[test]
fn adk_response_test_model_name() {
    assert_eq!(make_text_adk_response("x").model_name(), Some("google/gemini-3-flash-preview"));
}

#[test]
fn adk_response_test_finish_reason() {
    assert_eq!(make_text_adk_response("x").finish_reason(), Some("STOP"));
    assert_eq!(make_empty_adk_response().finish_reason(), None);
}

#[test]
fn adk_response_test_token_counts() {
    let resp = make_text_adk_response("x");
    assert_eq!(resp.input_tokens(), Some(20));
    assert_eq!(resp.output_tokens(), Some(10));
    assert_eq!(resp.total_tokens(), Some(30));
}

#[test]
fn adk_response_test_token_counts_no_metadata() {
    let resp = make_empty_adk_response();
    assert_eq!(resp.input_tokens(), None);
    assert_eq!(resp.output_tokens(), None);
    assert_eq!(resp.total_tokens(), None);
}

#[test]
fn adk_response_test_get_tool_calls() {
    let calls = make_function_call_adk_response().get_tool_calls();
    assert_eq!(calls.len(), 1);
    assert_eq!(calls[0].name, "transfer_to_agent");
}

#[test]
fn adk_tool_call_arguments() {
    let resp = make_function_call_adk_response();
    let calls = resp.get_tool_calls();
    assert_eq!(calls[0].call_id, None);
    assert_eq!(calls[0].arguments_json, r#"{"agent_name":"MeatRecipeAgent"}"#);
    let infos = resp.tool_call_infos();
    assert_eq!(infos.len(), 1);
    assert_eq!(infos[0].name, "transfer_to_agent");
    assert_eq!(infos[0].arguments, agent_args());
    assert!(infos[0].result.is_none());
}

#[test]
fn adk_response_test_get_tool_calls_empty() {
    assert!(make_text_adk_response("hello").get_tool_calls().is_empty());
    assert!(make_empty_adk_response().get_tool_calls().is_empty());
}

#[test]
fn adk_response_test_id() {
    assert_eq!(make_text_adk_response("x").id(), "test-interaction");
    assert_eq!(make_empty_adk_response().id(), "");
}

#[test]
fn test_to_message_num_text() {
    let resp = make_text_adk_response("hello");
    let msgs = resp.to_message_num().unwrap();
    assert_eq!(msgs.len(), 1);
}

#[test]
fn adk_response_test_to_message_num_empty() {
    let resp = make_empty_adk_response();
    let msgs = resp.to_message_num().unwrap();
    assert!(msgs.is_empty());
}

#[test]
fn test_structured_output_value_json() {
    let resp = make_text_adk_response(r#"{"key":"value"}"#);
    let val = resp.structured_output_value();
    assert!(val.is_some());
    assert_eq!(val.unwrap().get("key"), Some(&Json::Str("value".to_string())));
}

#[test]
fn adk_response_test_structured_output_value_plain_text() {
    assert!(make_text_adk_response("not json").structured_output_value().is_none());
}

fn candidate(token: &str, id: i32, logprob: f64) -> LogprobsCandidate {
    LogprobsCandidate { token: Some(token.to_string()), token_id: Some(id), log_probability_bits: Some(logprob.to_bits()) }
}

#[test]
fn test_get_log_probs_digits_only() {
    let mut resp = make_text_adk_response("x");
    resp.logprobs_result = Some(LogprobsResult {
        top_candidates: None,
        chosen_candidates: Some(vec![candidate("3", 1, -0.5), candidate("hello", 2, -1.0), candidate("7", 3, -0.2)]),
    });
    let probs = resp.get_log_probs();
    assert_eq!(probs.len(), 2);
    assert_eq!(probs[0].token, "3");
    assert_eq!(probs[1].token, "7");
}

#[test]
fn test_to_data_num_function_call_priority() {
    let mut part = AdkPart::empty();
    part.text = Some("some text".to_string());
    part.function_call = Some(FunctionCall { name: "my_fn".to_string(), id: None, args: None, will_continue: None });
    assert!(matches!(part.to_data_num(), DataNum::FunctionCall(_)));
}

#[test]
fn test_to_data_num_text_fallback() {
    let part = text_part("hello");
    assert!(matches!(part.to_data_num(), DataNum::Text(_)));
}

#[test]
fn adk_get_content_wraps_content_as_candidate() {
    let resp = make_text_adk_response("hello");
    let c = match resp.get_content() {
        ResponseContent::Google(c) => c,
        _ => panic!("expected a candidate"),
    };
    assert_eq!(c.index, Some(0));
    assert_eq!(c.content.role, "model");
    assert_eq!(c.content.parts.len(), 1);
    assert!(matches!(&c.content.parts[0].data, DataNum::Text(t) if t == "hello"));
}

#[test]
fn adk_get_content_carries_citations_and_grounding() {
    let mut resp = make_text_adk_response("hello");
    let citations = CitationMetadata {
        citations: Some(vec![Citation {
            start_index: Some(0),
            end_index: Some(5),
            uri: Some("https://example.com".to_string()),
            title: None,
            license: None,
            publication_date: Some(GoogleDate { year: Some(2024), month: Some(1), day: None }),
        }]),
    };
    let grounding = GroundingMetadata {
        web_search_queries: Some(vec!["weather".to_string()]),
        grounding_chunks: Some(vec![GroundingChunk {
            chunk_type: GroundingChunkType::Web(Web {
                uri: Some("https://example.com".to_string()),
                title: Some("Example".to_string()),
                domain: None,
            }),
        }]),
        grounding_supports: Some(vec![GroundingSupport {
            grounding_chunk_indices: Some(vec![0]),
            confidence_score_bits: Some(vec![0.5f32.to_bits()]),
            segment: None,
        }]),
        search_entry_point: None,
        retrieval_metadata: None,
        source_flagging_uris: None,
        google_maps_widget_context_token: None,
    };
    resp.citation_metadata = Some(citations.clone());
    resp.grounding_metadata = Some(grounding.clone());
    let c = match resp.get_content() {
        ResponseContent::Google(c) => c,
        _ => panic!("expected a candidate"),
    };
    assert_eq!(c.citation_metadata, Some(citations));
    assert_eq!(c.grounding_metadata, Some(grounding));
    assert_eq!(c.finish_reason, Some(FinishReason::Stop));
    assert_eq!(c.avg_logprob_bits, None);
}
