use vstd::prelude::*;

use crate::json::{Json, JsonV};
use crate::response::ResponseContent;
use crate::logprobs::TokenLogProbs;
use crate::tools::ToolCallInfo;

verus! {

/// A request to a prediction endpoint.
#[derive(Debug, PartialEq)]
pub struct PredictRequest {
    pub instances: Json,
    pub parameters: Json,
}

/// The answer of a prediction endpoint, such as embeddings.
#[derive(Debug, PartialEq)]
pub struct PredictResponse {
    pub predictions: Json,
    pub metadata: Json,
    pub deployed_model_id: String,
    pub model: String,
    pub model_version_id: String,
    pub model_display_name: String,
}

/// Two answers of a prediction endpoint hold the same values.
pub open spec fn same_prediction(a: PredictResponse, b: PredictResponse) -> bool {
    &&& a.predictions.view() == b.predictions.view() && a.metadata.view() == b.metadata.view()
    &&& a.deployed_model_id == b.deployed_model_id && a.model == b.model
    &&& a.model_version_id == b.model_version_id && a.model_display_name == b.model_display_name
}

impl PredictRequest {
    /// A request of `instances`, with `parameters` (null when none are given).
    pub fn new(instances: Json, parameters: Option<Json>) -> (r: PredictRequest)
        ensures
            r.instances == instances,
            match parameters {
                Some(p) => r.parameters == p,
                None => r.parameters.view() == JsonV::Null,
            },
    {
        let parameters = match parameters {
            Some(p) => p,
            None => Json::Null,
        };
        PredictRequest { instances, parameters }
    }
}

impl PredictResponse {
    /// The whole answer: a copy of it.
    pub fn get_content(&self) -> (r: ResponseContent)
        ensures
            r matches ResponseContent::PredictResponse(p) && same_prediction(*self, p),
    {
        ResponseContent::PredictResponse(PredictResponse {
            predictions: self.predictions.cloned(),
            metadata: self.metadata.cloned(),
            deployed_model_id: self.deployed_model_id.clone(),
            model: self.model.clone(),
            model_version_id: self.model_version_id.clone(),
            model_display_name: self.model_display_name.clone(),
        })
    }

    /// Whether the predictions are an empty list.
    pub fn is_empty(&self) -> (r: bool)
        ensures
            r == (self.predictions.view() matches JsonV::Array(a) && a.len() == 0),
    {
        match &self.predictions {
            Json::Array(a) => a.len() == 0,
            _ => false,
        }
    }

    /// The identifier of the deployed model.
    pub fn id(&self) -> (r: &str)
        ensures
            r@ == self.deployed_model_id@,
    {
        self.deployed_model_id.as_str()
    }

    /// The model that answered.
    pub fn model_name(&self) -> (r: Option<&str>)
        ensures
            r matches Some(m) && m@ == self.model@,
    {
        Some(self.model.as_str())
    }

    /// Predictions hold no text: the empty text.
    pub fn response_text(&self) -> (r: String)
        ensures
            r@ == Seq::<char>::empty(),
    {
        String::new()
    }

    /// Predictions have no finish reason.
    pub fn finish_reason(&self) -> (r: Option<&str>)
        ensures
            r is None,
    {
        None
    }

    /// Predictions report no tokens.
    pub fn input_tokens(&self) -> (r: Option<i64>)
        ensures
            r is None,
    {
        None
    }

    /// Predictions report no tokens.
    pub fn output_tokens(&self) -> (r: Option<i64>)
        ensures
            r is None,
    {
        None
    }

    /// Predictions report no tokens.
    pub fn total_tokens(&self) -> (r: Option<i64>)
        ensures
            r is None,
    {
        None
    }

    /// Predictions call no tools.
    pub fn get_tool_calls(&self) -> (r: Vec<ToolCallInfo>)
        ensures
            r@.len() == 0,
    {
        Vec::new()
    }

    /// Predictions call no tools.
    pub fn tool_call_output(&self) -> (r: Option<Json>)
        ensures
            r is None,
    {
        None
    }

    /// Predictions are not read as structured output.
    pub fn structured_output_value(&self) -> (r: Option<Json>)
        ensures
            r is None,
    {
        None
    }

    /// Predictions have no log probabilities.
    pub fn get_log_probs(&self) -> (r: Vec<TokenLogProbs>)
        ensures
            r@.len() == 0,
    {
        Vec::new()
    }
}

} // verus!
