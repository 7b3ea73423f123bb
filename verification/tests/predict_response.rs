use potatohead::google::predict::{PredictRequest, PredictResponse};
use potatohead::json::Json;
use potatohead::response::ResponseContent;

fn n(v: &str) -> Json {
    Json::Number(v.to_string())
}

fn make_predict_response() -> PredictResponse {
    let values = Json::Array(vec![n("0.1"), n("0.2"), n("0.3")]);
    let embeddings = Json::Object(vec![("values".to_string(), values)]);
    PredictResponse {
        predictions: Json::Array(vec![Json::Object(vec![("embeddings".to_string(), embeddings)])]),
        metadata: Json::Object(vec![]),
        deployed_model_id: "model-deploy-123".to_string(),
        model: "textembedding-gecko@003".to_string(),
        model_version_id: "1".to_string(),
        model_display_name: "Text Embedding Gecko".to_string(),
    }
}

fn make_empty_predict_response() -> PredictResponse {
    PredictResponse {
        predictions: Json::Array(vec![]),
        metadata: Json::Null,
        deployed_model_id: "model-deploy-456".to_string(),
        model: "textembedding-gecko@003".to_string(),
        model_version_id: "1".to_string(),
        model_display_name: "".to_string(),
    }
}

#[test]
fn mod_test_id() {
    assert_eq!(make_predict_response().id(), "model-deploy-123");
}

#[test]
fn mod_test_is_empty() {
    assert!(!make_predict_response().is_empty());
    assert!(make_empty_predict_response().is_empty());
}

#[test]
fn test_is_empty_non_array() {
    let resp = PredictResponse {
        predictions: Json::Object(vec![("key".to_string(), Json::Str("value".to_string()))]),
        metadata: Json::Null,
        deployed_model_id: String::new(),
        model: String::new(),
        model_version_id: String::new(),
        model_display_name: String::new(),
    };
    assert!(!resp.is_empty());
}

#[test]
fn test_response_text_always_empty() {
    assert_eq!(make_predict_response().response_text(), "");
}

#[test]
fn mod_test_model_name() {
    assert_eq!(make_predict_response().model_name(), Some("textembedding-gecko@003"));
}

#[test]
fn test_finish_reason_always_none() {
    assert_eq!(make_predict_response().finish_reason(), None);
}

#[test]
fn test_token_counts_always_none() {
    let resp = make_predict_response();
    assert_eq!(resp.input_tokens(), None);
    assert_eq!(resp.output_tokens(), None);
    assert_eq!(resp.total_tokens(), None);
}

#[test]
fn test_get_tool_calls_always_empty() {
    assert!(make_predict_response().get_tool_calls().is_empty());
}

#[test]
fn test_tool_call_output_always_none() {
    assert!(make_predict_response().tool_call_output().is_none());
}

#[test]
fn test_structured_output_value_always_none() {
    assert!(make_predict_response().structured_output_value().is_none());
}

#[test]
fn mod_test_get_log_probs_always_empty() {
    assert!(make_predict_response().get_log_probs().is_empty());
}

#[test]
fn test_to_message_num_errors() {
    let resp = make_predict_response();
    assert!(resp.to_message_num().is_err());
}

#[test]
fn predict_get_content_copies_the_answer() {
    let resp = make_predict_response();
    let copy = resp.get_content();
    assert_eq!(copy, ResponseContent::PredictResponse(make_predict_response()));
}

#[test]
fn predict_request_defaults_parameters_to_null() {
    let r = PredictRequest::new(Json::Array(vec![]), None);
    assert_eq!(r.parameters, Json::Null);
    let r = PredictRequest::new(Json::Array(vec![]), Some(Json::Bool(true)));
    assert_eq!(r.parameters, Json::Bool(true));
}
