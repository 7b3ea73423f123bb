use vstd::prelude::*;

use crate::google::grounding::{
    opt_seq, same_opt_citations, same_opt_grounding, UrlMetadata, CitationMetadata, GroundingMetadata, ModalityTokenCount, PromptFeedback, SafetyRating, TrafficType,
    UrlContextMetadata,
};
use crate::google::request::{same_content, DataNum, FunctionCall, GeminiContent, Part};
use crate::response::ResponseContent;
use crate::json::{json_parse, parse_json, Json, JsonV};
use crate::logprobs::{digit_token, is_digit_token, TokenLogProbs};
use crate::text::clone_opt_str;
use crate::tools::ToolCallInfo;

verus! {

/// Why a Gemini model stopped.
#[derive(Debug, Clone, Copy, PartialEq, Eq, Structural)]
pub enum FinishReason {
    FinishReasonUnspecified,
    Stop,
    MaxTokens,
    Safety,
    Recitation,
    Other,
    Blocklist,
    ProhibitedContent,
    Spii,
    MalformedFunctionCall,
    ModelArmor,
    ImageSafety,
    ImageProhibitedContent,
    ImageRecitation,
    ImageOther,
    UnexpectedToolCall,
    NoImage,
}

/// The name of a finish reason.
pub open spec fn finish_reason_name(r: FinishReason) -> Seq<char> {
    match r {
        FinishReason::FinishReasonUnspecified => "FINISH_REASON_UNSPECIFIED"@,
        FinishReason::Stop => "STOP"@,
        FinishReason::MaxTokens => "MAX_TOKENS"@,
        FinishReason::Safety => "SAFETY"@,
        FinishReason::Recitation => "RECITATION"@,
        FinishReason::Other => "OTHER"@,
        FinishReason::Blocklist => "BLOCKLIST"@,
        FinishReason::ProhibitedContent => "PROHIBITED_CONTENT"@,
        FinishReason::Spii => "SPII"@,
        FinishReason::MalformedFunctionCall => "MALFORMED_FUNCTION_CALL"@,
        FinishReason::ModelArmor => "MODEL_ARMOR"@,
        FinishReason::ImageSafety => "IMAGE_SAFETY"@,
        FinishReason::ImageProhibitedContent => "IMAGE_PROHIBITED_CONTENT"@,
        FinishReason::ImageRecitation => "IMAGE_RECITATION"@,
        FinishReason::ImageOther => "IMAGE_OTHER"@,
        FinishReason::UnexpectedToolCall => "UNEXPECTED_TOOL_CALL"@,
        FinishReason::NoImage => "NO_IMAGE"@,
    }
}

impl FinishReason {
    /// The name of the reason.
    pub fn as_str(&self) -> (r: &'static str)
        ensures
            r@ == finish_reason_name(*self),
    {
        match self {
            FinishReason::FinishReasonUnspecified => "FINISH_REASON_UNSPECIFIED",
            FinishReason::Stop => "STOP",
            FinishReason::MaxTokens => "MAX_TOKENS",
            FinishReason::Safety => "SAFETY",
            FinishReason::Recitation => "RECITATION",
            FinishReason::Other => "OTHER",
            FinishReason::Blocklist => "BLOCKLIST",
            FinishReason::ProhibitedContent => "PROHIBITED_CONTENT",
            FinishReason::Spii => "SPII",
            FinishReason::MalformedFunctionCall => "MALFORMED_FUNCTION_CALL",
            FinishReason::ModelArmor => "MODEL_ARMOR",
            FinishReason::ImageSafety => "IMAGE_SAFETY",
            FinishReason::ImageProhibitedContent => "IMAGE_PROHIBITED_CONTENT",
            FinishReason::ImageRecitation => "IMAGE_RECITATION",
            FinishReason::ImageOther => "IMAGE_OTHER",
            FinishReason::UnexpectedToolCall => "UNEXPECTED_TOOL_CALL",
            FinishReason::NoImage => "NO_IMAGE",
        }
    }
}

/// A token that the model chose, with its log probability given by the bits of
/// the 64-bit floating-point number.
#[derive(Debug, Clone, PartialEq)]
pub struct LogprobsCandidate {
    pub token: Option<String>,
    pub token_id: Option<i32>,
    pub log_probability_bits: Option<u64>,
}

/// The likeliest tokens at a place of the answer.
#[derive(Debug, Clone, PartialEq)]
pub struct TopCandidates {
    pub candidates: Option<Vec<LogprobsCandidate>>,
}

/// The log probabilities of an answer.
#[derive(Debug, Clone, PartialEq)]
pub struct LogprobsResult {
    pub top_candidates: Option<Vec<TopCandidates>>,
    pub chosen_candidates: Option<Vec<LogprobsCandidate>>,
}

/// One answer of the model; its average log probability is given by the bits
/// of the 64-bit floating-point number.
#[derive(Debug, PartialEq)]
pub struct Candidate {
    pub index: Option<i32>,
    pub content: GeminiContent,
    pub avg_logprob_bits: Option<u64>,
    pub logprobs_result: Option<LogprobsResult>,
    pub finish_reason: Option<FinishReason>,
    pub safety_ratings: Option<Vec<SafetyRating>>,
    pub citation_metadata: Option<CitationMetadata>,
    pub grounding_metadata: Option<GroundingMetadata>,
    pub url_context_metadata: Option<UrlContextMetadata>,
    pub finish_message: Option<String>,
}

/// The tokens that a request used.
#[derive(Debug, Clone, PartialEq)]
pub struct UsageMetadata {
    pub prompt_token_count: Option<i32>,
    pub candidates_token_count: Option<i32>,
    pub tool_use_prompt_token_count: Option<i32>,
    pub thoughts_token_count: Option<i32>,
    pub total_token_count: Option<i32>,
    pub cached_content_token_count: Option<i32>,
    pub prompt_tokens_details: Option<Vec<ModalityTokenCount>>,
    pub cache_tokens_details: Option<Vec<ModalityTokenCount>>,
    pub candidates_tokens_details: Option<Vec<ModalityTokenCount>>,
    pub tool_use_prompt_tokens_details: Option<Vec<ModalityTokenCount>>,
    pub traffic_type: Option<TrafficType>,
}

/// The answer of a Gemini model.
#[derive(Debug, PartialEq)]
pub struct GenerateContentResponse {
    pub candidates: Vec<Candidate>,
    pub model_version: Option<String>,
    pub create_time: Option<String>,
    pub response_id: Option<String>,
    pub prompt_feedback: Option<PromptFeedback>,
    pub usage_metadata: Option<UsageMetadata>,
}

/// The data of the first part of the first candidate, if there is one.
pub open spec fn first_data(candidates: Seq<Candidate>) -> Option<DataNum> {
    if candidates.len() == 0 || candidates[0].content.parts@.len() == 0 {
        None
    } else {
        Some(candidates[0].content.parts@[0].data)
    }
}

/// The JSON of a function call: its arguments, identifier, name and whether it
/// continues, where present, with the keys in order.
pub open spec fn function_call_json(f: FunctionCall) -> JsonV {
    JsonV::Object(
        (match f.args {
            Some(a) => seq![("args"@, a.view())],
            None => Seq::empty(),
        }) + (match f.id {
            Some(i) => seq![("id"@, JsonV::Str(i@))],
            None => Seq::empty(),
        }) + seq![("name"@, JsonV::Str(f.name@))] + (match f.will_continue {
            Some(b) => seq![("will_continue"@, JsonV::Bool(b))],
            None => Seq::empty(),
        }),
    )
}

/// The function calls among the parts, in order.
pub open spec fn part_calls(parts: Seq<Part>) -> Seq<FunctionCall>
    decreases parts.len(),
{
    if parts.len() == 0 {
        Seq::empty()
    } else {
        let rest = part_calls(parts.drop_last());
        match parts.last().data {
            DataNum::FunctionCall(f) => rest.push(f),
            _ => rest,
        }
    }
}

/// The function calls of all candidates, in order.
pub open spec fn candidate_calls(cands: Seq<Candidate>) -> Seq<FunctionCall>
    decreases cands.len(),
{
    if cands.len() == 0 {
        Seq::empty()
    } else {
        candidate_calls(cands.drop_last()) + part_calls(cands.last().content.parts@)
    }
}

/// The call as the library reports it: the arguments, or null when there are none.
pub open spec fn gemini_call_info(f: FunctionCall, i: ToolCallInfo) -> bool {
    i.name == f.name && i.call_id == f.id && i.result is None && i.arguments.view() == match f.args {
        Some(a) => a.view(),
        None => JsonV::Null,
    }
}

/// The chosen tokens of one digit, with their log probabilities (zero bits when
/// none is given), in order.
pub open spec fn digit_candidates(c: Seq<LogprobsCandidate>) -> Seq<(Seq<char>, u64)>
    decreases c.len(),
{
    if c.len() == 0 {
        Seq::empty()
    } else {
        let rest = digit_candidates(c.drop_last());
        match c.last().token {
            Some(t) => if digit_token(t@) {
                rest.push(
                    (
                        t@,
                        match c.last().log_probability_bits {
                            Some(b) => b,
                            None => 0u64,
                        },
                    ),
                )
            } else {
                rest
            },
            None => rest,
        }
    }
}

/// The chosen tokens of the first candidate.
pub open spec fn first_chosen(cands: Seq<Candidate>) -> Seq<LogprobsCandidate> {
    if cands.len() == 0 {
        Seq::empty()
    } else {
        match cands[0].logprobs_result {
            Some(l) => match l.chosen_candidates {
                Some(c) => c@,
                None => Seq::empty(),
            },
            None => Seq::empty(),
        }
    }
}

/// The JSON of a function call.
pub fn function_call_to_json(f: &FunctionCall) -> (r: Json)
    ensures
        r.view() == function_call_json(*f),
{
    let mut entries: Vec<(String, Json)> = Vec::new();
    match &f.args {
        Some(a) => {
            let k = "args".to_owned();
            entries.push((k, a.cloned()));
        },
        None => {},
    }
    match &f.id {
        Some(i) => {
            let k = "id".to_owned();
            let v = Json::Str(i.clone());
            assert(v.view() == JsonV::Str(i@));
            entries.push((k, v));
        },
        None => {},
    }
    let kn = "name".to_owned();
    let vn = Json::Str(f.name.clone());
    assert(vn.view() == JsonV::Str(f.name@));
    entries.push((kn, vn));
    match f.will_continue {
        Some(b) => {
            let k = "will_continue".to_owned();
            entries.push((k, Json::Bool(b)));
        },
        None => {},
    }
    let r = Json::Object(entries);
    proof {
        let o = r.view()->Object_0;
        let want = function_call_json(*f)->Object_0;
        assert(o.len() == want.len());
        assert forall|k: int| 0 <= k < o.len() implies o[k] == want[k] by {
            assert(o[k] == (entries@[k].0@, entries@[k].1.view()));
        }
        assert(o =~= want);
    }
    r
}

/// A copy of a list of chosen tokens.
fn copy_logprobs_candidates(v: &Vec<LogprobsCandidate>) -> (r: Vec<LogprobsCandidate>)
    ensures
        r@ == v@,
{
    let mut out: Vec<LogprobsCandidate> = Vec::new();
    let mut i: usize = 0;
    while i < v.len()
        invariant
            i <= v@.len(),
            out@ == v@.take(i as int),
        decreases v@.len() - i,
    {
        let c = &v[i];
        out.push(
            LogprobsCandidate {
                token: clone_opt_str(&c.token),
                token_id: c.token_id,
                log_probability_bits: c.log_probability_bits,
            },
        );
        proof {
            assert(v@.take(i + 1) =~= v@.take(i as int).push(v@[i as int]));
        }
        i = i + 1;
    }
    proof {
        assert(v@.take(i as int) =~= v@);
    }
    out
}

/// Two lists of likeliest tokens hold the same tokens.
pub open spec fn same_top_candidates(a: Seq<TopCandidates>, b: Seq<TopCandidates>) -> bool {
    a.len() == b.len() && forall|i: int| 0 <= i < a.len() ==> opt_seq(#[trigger] a[i].candidates) == opt_seq(
        b[i].candidates,
    )
}

/// Two log-probability results hold the same tokens.
pub open spec fn same_logprobs(a: LogprobsResult, b: LogprobsResult) -> bool {
    opt_seq(a.chosen_candidates) == opt_seq(b.chosen_candidates) && match (a.top_candidates, b.top_candidates) {
        (Some(x), Some(y)) => same_top_candidates(x@, y@),
        (None, None) => true,
        _ => false,
    }
}

/// Two optional log-probability results hold the same tokens.
pub open spec fn same_opt_logprobs(a: Option<LogprobsResult>, b: Option<LogprobsResult>) -> bool {
    match (a, b) {
        (Some(x), Some(y)) => same_logprobs(x, y),
        (None, None) => true,
        _ => false,
    }
}

/// Two optional URL context descriptions hold the same URLs.
pub open spec fn same_opt_url_context(a: Option<UrlContextMetadata>, b: Option<UrlContextMetadata>) -> bool {
    match (a, b) {
        (Some(x), Some(y)) => opt_seq(x.url_metadata) == opt_seq(y.url_metadata),
        (None, None) => true,
        _ => false,
    }
}

/// Two candidates hold the same values.
pub open spec fn same_candidate(a: Candidate, b: Candidate) -> bool {
    &&& a.index == b.index
    &&& same_content(a.content, b.content)
    &&& a.avg_logprob_bits == b.avg_logprob_bits
    &&& same_opt_logprobs(a.logprobs_result, b.logprobs_result)
    &&& a.finish_reason == b.finish_reason
    &&& opt_seq(a.safety_ratings) == opt_seq(b.safety_ratings)
    &&& same_opt_citations(a.citation_metadata, b.citation_metadata)
    &&& same_opt_grounding(a.grounding_metadata, b.grounding_metadata)
    &&& same_opt_url_context(a.url_context_metadata, b.url_context_metadata)
    &&& a.finish_message == b.finish_message
}

impl LogprobsResult {
    /// A copy of the result.
    pub fn duplicate(&self) -> (r: LogprobsResult)
        ensures
            same_logprobs(*self, r),
    {
        let top_candidates = match &self.top_candidates {
            Some(v) => {
                let mut out: Vec<TopCandidates> = Vec::new();
                let mut i: usize = 0;
                while i < v.len()
                    invariant
                        i <= v@.len(),
                        out@.len() == i,
                        forall|j: int| 0 <= j < i ==> opt_seq(#[trigger] out@[j].candidates) == opt_seq(
                            v@[j].candidates,
                        ),
                    decreases v@.len() - i,
                {
                    let candidates = match &v[i].candidates {
                        Some(c) => Some(copy_logprobs_candidates(c)),
                        None => None,
                    };
                    out.push(TopCandidates { candidates });
                    i = i + 1;
                }
                Some(out)
            },
            None => None,
        };
        let chosen_candidates = match &self.chosen_candidates {
            Some(c) => Some(copy_logprobs_candidates(c)),
            None => None,
        };
        LogprobsResult { top_candidates, chosen_candidates }
    }
}

/// A copy of a list of safety ratings.
fn copy_safety_ratings(v: &Vec<SafetyRating>) -> (r: Vec<SafetyRating>)
    ensures
        r@ == v@,
{
    let mut out: Vec<SafetyRating> = Vec::new();
    let mut i: usize = 0;
    while i < v.len()
        invariant
            i <= v@.len(),
            out@ == v@.take(i as int),
        decreases v@.len() - i,
    {
        out.push(v[i]);
        proof {
            assert(v@.take(i + 1) =~= v@.take(i as int).push(v@[i as int]));
        }
        i = i + 1;
    }
    proof {
        assert(v@.take(i as int) =~= v@);
    }
    out
}

/// A copy of the URLs that the URL context tool read.
fn copy_url_context(m: &UrlContextMetadata) -> (r: UrlContextMetadata)
    ensures
        opt_seq(r.url_metadata) == opt_seq(m.url_metadata),
{
    let url_metadata = match &m.url_metadata {
        Some(v) => {
            let mut out: Vec<UrlMetadata> = Vec::new();
            let mut i: usize = 0;
            while i < v.len()
                invariant
                    i <= v@.len(),
                    out@ == v@.take(i as int),
                decreases v@.len() - i,
            {
                out.push(
                    UrlMetadata {
                        retrieved_url: clone_opt_str(&v[i].retrieved_url),
                        url_retrieval_status: v[i].url_retrieval_status,
                    },
                );
                proof {
                    assert(v@.take(i + 1) =~= v@.take(i as int).push(v@[i as int]));
                }
                i = i + 1;
            }
            proof {
                assert(v@.take(i as int) =~= v@);
            }
            Some(out)
        },
        None => None,
    };
    UrlContextMetadata { url_metadata }
}

impl Candidate {
    /// A copy of the candidate.
    pub fn duplicate(&self) -> (r: Candidate)
        ensures
            same_candidate(*self, r),
    {
        Candidate {
            index: self.index,
            content: self.content.duplicate(),
            avg_logprob_bits: self.avg_logprob_bits,
            logprobs_result: match &self.logprobs_result {
                Some(l) => Some(l.duplicate()),
                None => None,
            },
            finish_reason: self.finish_reason,
            safety_ratings: match &self.safety_ratings {
                Some(v) => Some(copy_safety_ratings(v)),
                None => None,
            },
            citation_metadata: match &self.citation_metadata {
                Some(m) => Some(m.duplicate()),
                None => None,
            },
            grounding_metadata: match &self.grounding_metadata {
                Some(m) => Some(m.duplicate()),
                None => None,
            },
            url_context_metadata: match &self.url_context_metadata {
                Some(m) => Some(copy_url_context(m)),
                None => None,
            },
            finish_message: clone_opt_str(&self.finish_message),
        }
    }
}

impl GenerateContentResponse {
    /// The first candidate; the answer must have one.
    pub fn get_content(&self) -> (r: ResponseContent)
        requires
            self.candidates@.len() > 0,
        ensures
            r matches ResponseContent::Google(c) && same_candidate(self.candidates@[0], c),
    {
        ResponseContent::Google(self.candidates[0].duplicate())
    }
}

impl GenerateContentResponse {
    /// Whether the answer has no candidates.
    pub fn is_empty(&self) -> (r: bool)
        ensures
            r == (self.candidates@.len() == 0),
    {
        self.candidates.len() == 0
    }

    /// The identifier of the answer, or the empty text.
    pub fn id(&self) -> (r: &str)
        ensures
            r@ == match self.response_id {
                Some(i) => i@,
                None => ""@,
            },
    {
        match &self.response_id {
            Some(i) => i.as_str(),
            None => "",
        }
    }

    /// The text of the first part of the first candidate, or the empty text.
    pub fn response_text(&self) -> (r: String)
        ensures
            r@ == match first_data(self.candidates@) {
                Some(DataNum::Text(t)) => t@,
                _ => Seq::<char>::empty(),
            },
    {
        if self.candidates.len() == 0 || self.candidates[0].content.parts.len() == 0 {
            return String::new();
        }
        match &self.candidates[0].content.parts[0].data {
            DataNum::Text(t) => t.clone(),
            _ => String::new(),
        }
    }

    /// The JSON that the first part's text holds, if it holds JSON.
    pub fn structured_output_value(&self) -> (r: Option<Json>)
        ensures
            match first_data(self.candidates@) {
                Some(DataNum::Text(t)) => (r is Some == json_parse(t@) is Some) && (r matches Some(j) ==> j.view()
                    == json_parse(t@)->0),
                _ => r is None,
            },
    {
        if self.candidates.len() == 0 || self.candidates[0].content.parts.len() == 0 {
            return None;
        }
        match &self.candidates[0].content.parts[0].data {
            DataNum::Text(t) => parse_json(t.as_str()),
            _ => None,
        }
    }

    /// The first part's function call as JSON, if the first part is one.
    pub fn tool_call_output(&self) -> (r: Option<Json>)
        ensures
            match first_data(self.candidates@) {
                Some(DataNum::FunctionCall(f)) => r matches Some(j) && j.view() == function_call_json(f),
                _ => r is None,
            },
    {
        if self.candidates.len() == 0 || self.candidates[0].content.parts.len() == 0 {
            return None;
        }
        match &self.candidates[0].content.parts[0].data {
            DataNum::FunctionCall(f) => Some(function_call_to_json(f)),
            _ => None,
        }
    }

    /// The model that answered, or the empty text.
    pub fn model_name(&self) -> (r: Option<&str>)
        ensures
            r matches Some(m) && m@ == match self.model_version {
                Some(v) => v@,
                None => ""@,
            },
    {
        match &self.model_version {
            Some(v) => Some(v.as_str()),
            None => Some(""),
        }
    }

    /// Why the model stopped in its first candidate.
    pub fn finish_reason(&self) -> (r: Option<&str>)
        ensures
            (self.candidates@.len() == 0 || self.candidates@[0].finish_reason is None) ==> r is None,
            (self.candidates@.len() > 0 && self.candidates@[0].finish_reason is Some) ==> (r matches Some(f) && f@
                == finish_reason_name(self.candidates@[0].finish_reason->0)),
    {
        if self.candidates.len() == 0 {
            return None;
        }
        match &self.candidates[0].finish_reason {
            Some(f) => Some(f.as_str()),
            None => None,
        }
    }

    /// The tokens of the prompt, when the answer reports usage.
    pub fn input_tokens(&self) -> (r: Option<i64>)
        ensures
            r == match self.usage_metadata {
                Some(u) => Some(match u.prompt_token_count {
                    Some(c) => c as i64,
                    None => 0i64,
                }),
                None => None::<i64>,
            },
    {
        match &self.usage_metadata {
            Some(u) => Some(match u.prompt_token_count {
                Some(c) => c as i64,
                None => 0,
            }),
            None => None,
        }
    }

    /// The tokens of the answer, when the answer reports usage.
    pub fn output_tokens(&self) -> (r: Option<i64>)
        ensures
            r == match self.usage_metadata {
                Some(u) => Some(match u.candidates_token_count {
                    Some(c) => c as i64,
                    None => 0i64,
                }),
                None => None::<i64>,
            },
    {
        match &self.usage_metadata {
            Some(u) => Some(match u.candidates_token_count {
                Some(c) => c as i64,
                None => 0,
            }),
            None => None,
        }
    }

    /// All tokens, when the answer reports usage.
    pub fn total_tokens(&self) -> (r: Option<i64>)
        ensures
            r == match self.usage_metadata {
                Some(u) => Some(match u.total_token_count {
                    Some(c) => c as i64,
                    None => 0i64,
                }),
                None => None::<i64>,
            },
    {
        match &self.usage_metadata {
            Some(u) => Some(match u.total_token_count {
                Some(c) => c as i64,
                None => 0,
            }),
            None => None,
        }
    }

    /// The functions that the model called, over all candidates and parts, in order.
    pub fn get_tool_calls(&self) -> (r: Vec<ToolCallInfo>)
        ensures
            r@.len() == candidate_calls(self.candidates@).len(),
            forall|k: int| 0 <= k < r@.len() ==> gemini_call_info(candidate_calls(self.candidates@)[k], #[trigger] r@[k]),
    {
        let mut out: Vec<ToolCallInfo> = Vec::new();
        let mut i: usize = 0;
        while i < self.candidates.len()
            invariant
                i <= self.candidates@.len(),
                out@.len() == candidate_calls(self.candidates@.take(i as int)).len(),
                forall|k: int| 0 <= k < out@.len() ==> gemini_call_info(candidate_calls(self.candidates@.take(i as int))[k], #[trigger] out@[k]),
            decreases self.candidates@.len() - i,
        {
            let parts = &self.candidates[i].content.parts;
            let ghost before = candidate_calls(self.candidates@.take(i as int));
            proof {
                assert(self.candidates@.take(i + 1).drop_last() =~= self.candidates@.take(i as int));
                assert(self.candidates@.take(i + 1).last() == self.candidates@[i as int]);
            }
            let mut j: usize = 0;
            while j < parts.len()
                invariant
                    j <= parts@.len(),
                    out@.len() == before.len() + part_calls(parts@.take(j as int)).len(),
                    forall|k: int| 0 <= k < before.len() ==> gemini_call_info(before[k], #[trigger] out@[k]),
                    forall|k: int| 0 <= k < part_calls(parts@.take(j as int)).len() ==> gemini_call_info(
                        part_calls(parts@.take(j as int))[k],
                        #[trigger] out@[before.len() + k],
                    ),
                decreases parts@.len() - j,
            {
                proof {
                    assert(parts@.take(j + 1).drop_last() =~= parts@.take(j as int));
                    assert(parts@.take(j + 1).last() == parts@[j as int]);
                }
                match &parts[j].data {
                    DataNum::FunctionCall(f) => {
                        let args = match &f.args {
                            Some(a) => a.cloned(),
                            None => Json::Null,
                        };
                        out.push(ToolCallInfo { name: f.name.clone(), arguments: args, call_id: clone_opt_str(&f.id), result: None });
                        proof {
                            let pc = part_calls(parts@.take(j + 1));
                            assert(pc == part_calls(parts@.take(j as int)).push(*f));
                            assert forall|k: int| 0 <= k < pc.len() implies gemini_call_info(pc[k], #[trigger] out@[before.len() + k]) by {
                                if k < pc.len() - 1 {
                                    assert(pc[k] == part_calls(parts@.take(j as int))[k]);
                                } else {
                                    assert(out@[before.len() + k] == out@[out@.len() - 1]);
                                }
                            }
                        }
                    },
                    _ => {},
                }
                j = j + 1;
            }
            proof {
                assert(parts@.take(j as int) =~= parts@);
                let after = candidate_calls(self.candidates@.take(i + 1));
                assert(after == before + part_calls(parts@));
                assert forall|k: int| 0 <= k < out@.len() implies gemini_call_info(after[k], #[trigger] out@[k]) by {
                    if k < before.len() {
                        assert(after[k] == before[k]);
                    } else {
                        assert(after[k] == part_calls(parts@)[k - before.len()]);
                        assert(out@[before.len() + (k - before.len())] == out@[k]);
                    }
                }
            }
            i = i + 1;
        }
        proof {
            assert(self.candidates@.take(i as int) =~= self.candidates@);
        }
        out
    }

    /// The chosen tokens of one ASCII digit in the first candidate, with their log probabilities.
    pub fn get_log_probs(&self) -> (r: Vec<TokenLogProbs>)
        ensures
            r@.len() == digit_candidates(first_chosen(self.candidates@)).len(),
            forall|k: int| 0 <= k < r@.len() ==> (#[trigger] r@[k]).token@ == digit_candidates(first_chosen(self.candidates@))[k].0
                && r@[k].logprob_bits == digit_candidates(first_chosen(self.candidates@))[k].1,
    {
        let mut out: Vec<TokenLogProbs> = Vec::new();
        if self.candidates.len() == 0 {
            return out;
        }
        match &self.candidates[0].logprobs_result {
            Some(l) => match &l.chosen_candidates {
                Some(chosen) => {
                    let mut i: usize = 0;
                    while i < chosen.len()
                        invariant
                            i <= chosen@.len(),
                            first_chosen(self.candidates@) == chosen@,
                            out@.len() == digit_candidates(chosen@.take(i as int)).len(),
                            forall|k: int| 0 <= k < out@.len() ==> (#[trigger] out@[k]).token@ == digit_candidates(chosen@.take(i as int))[k].0
                                && out@[k].logprob_bits == digit_candidates(chosen@.take(i as int))[k].1,
                        decreases chosen@.len() - i,
                    {
                        proof {
                            assert(chosen@.take(i + 1).drop_last() =~= chosen@.take(i as int));
                            assert(chosen@.take(i + 1).last() == chosen@[i as int]);
                        }
                        match &chosen[i].token {
                            Some(t) => {
                                if is_digit_token(t.as_str()) {
                                    let bits = match chosen[i].log_probability_bits {
                                        Some(b) => b,
                                        None => 0,
                                    };
                                    out.push(TokenLogProbs { token: t.clone(), logprob_bits: bits });
                                }
                            },
                            None => {},
                        }
                        i = i + 1;
                    }
                    proof {
                        assert(chosen@.take(i as int) =~= chosen@);
                    }
                },
                None => {},
            },
            None => {},
        }
        out
    }
}

} // verus!
