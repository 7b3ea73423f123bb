use vstd::prelude::*;

use crate::google::grounding::{CitationMetadata, GroundingMetadata};
use crate::google::request::{
    Blob, CodeExecutionResult, DataNum, ExecutableCode, FileData, FunctionCall, FunctionResponse, same_data,
};
use crate::google::response::{
    digit_candidates, finish_reason_name, function_call_json, function_call_to_json, FinishReason, LogprobsResult,
};
use crate::json::{json_parse, json_render, parse_json, render_json, Json, JsonV};
use crate::logprobs::{is_digit_token, TokenLogProbs};
use crate::text::clone_opt_str;
use crate::tools::ToolCallInfo;

verus! {

/// A function call of an agent's answer, with its arguments as JSON text.
#[derive(Debug, Clone, PartialEq)]
pub struct AdkToolCallInfo {
    pub name: String,
    pub call_id: Option<String>,
    pub arguments_json: String,
}

/// A part of an agent's answer: at most one kind of data is expected.
#[derive(Debug, PartialEq)]
pub struct AdkPart {
    pub text: Option<String>,
    pub function_call: Option<FunctionCall>,
    pub function_response: Option<FunctionResponse>,
    pub inline_data: Option<Blob>,
    pub file_data: Option<FileData>,
    pub executable_code: Option<ExecutableCode>,
    pub code_execution_result: Option<CodeExecutionResult>,
}

/// A part with nothing set.
pub open spec fn empty_adk_part(p: AdkPart) -> bool {
    p.text is None && p.function_call is None && p.function_response is None && p.inline_data is None
        && p.file_data is None && p.executable_code is None && p.code_execution_result is None
}

/// The data that a part of an agent's answer stands for: a function call
/// first, then a function response, inline data, file data, code, a code
/// result, and else its text (the empty text when it has none).
pub open spec fn adk_data(p: AdkPart, d: DataNum) -> bool {
    match p.function_call {
        Some(fc) => same_data(DataNum::FunctionCall(fc), d),
        None => match p.function_response {
            Some(fr) => same_data(DataNum::FunctionResponse(fr), d),
            None => match p.inline_data {
                Some(b) => d == DataNum::InlineData(b),
                None => match p.file_data {
                    Some(f) => d == DataNum::FileData(f),
                    None => match p.executable_code {
                        Some(e) => d == DataNum::ExecutableCode(e),
                        None => match p.code_execution_result {
                            Some(c) => d == DataNum::CodeExecutionResult(c),
                            None => d matches DataNum::Text(t) && t@ == match p.text {
                                Some(x) => x@,
                                None => Seq::<char>::empty(),
                            },
                        },
                    },
                },
            },
        },
    }
}

impl AdkPart {
    /// A part with nothing set.
    pub fn empty() -> (r: Self)
        ensures
            empty_adk_part(r),
    {
        AdkPart {
            text: None,
            function_call: None,
            function_response: None,
            inline_data: None,
            file_data: None,
            executable_code: None,
            code_execution_result: None,
        }
    }

    /// The data that the part stands for.
    pub fn to_data_num(&self) -> (r: DataNum)
        ensures
            adk_data(*self, r),
    {
        if let Some(fc) = &self.function_call {
            return DataNum::FunctionCall(
                FunctionCall {
                    name: fc.name.clone(),
                    id: clone_opt_str(&fc.id),
                    args: match &fc.args {
                        Some(a) => Some(a.cloned()),
                        None => None,
                    },
                    will_continue: fc.will_continue,
                },
            );
        }
        if let Some(fr) = &self.function_response {
            return DataNum::FunctionResponse(FunctionResponse { name: fr.name.clone(), response: fr.response.cloned() });
        }
        if let Some(b) = &self.inline_data {
            return DataNum::InlineData(Blob { mime_type: b.mime_type.clone(), data: b.data.clone(), display_name: clone_opt_str(&b.display_name) });
        }
        if let Some(f) = &self.file_data {
            return DataNum::FileData(FileData { mime_type: f.mime_type.clone(), file_uri: f.file_uri.clone(), display_name: clone_opt_str(&f.display_name) });
        }
        if let Some(e) = &self.executable_code {
            return DataNum::ExecutableCode(ExecutableCode { language: e.language, code: e.code.clone() });
        }
        if let Some(c) = &self.code_execution_result {
            return DataNum::CodeExecutionResult(CodeExecutionResult { outcome: c.outcome, output: clone_opt_str(&c.output) });
        }
        match &self.text {
            Some(t) => DataNum::Text(t.clone()),
            None => DataNum::Text(String::new()),
        }
    }
}

/// The content of an agent's answer.
#[derive(Debug, PartialEq)]
pub struct AdkContent {
    pub parts: Vec<AdkPart>,
    pub role: String,
}

/// The tokens that an agent's request used.
#[derive(Debug, Clone, PartialEq)]
pub struct AdkUsageMetadata {
    pub prompt_token_count: Option<i32>,
    pub candidates_token_count: Option<i32>,
    pub total_token_count: Option<i32>,
    pub cached_content_token_count: Option<i32>,
    pub thoughts_token_count: Option<i32>,
    pub tool_use_prompt_token_count: Option<i32>,
}

/// Text transcribed from audio.
#[derive(Debug, Clone, PartialEq)]
pub struct AdkTranscription {
    pub text: Option<String>,
    pub finished: Option<bool>,
}

/// The context cache that an agent used; its times are given by the bits of
/// 64-bit floating-point numbers.
#[derive(Debug, Clone, PartialEq)]
pub struct AdkCacheMetadata {
    pub cache_name: Option<String>,
    pub expire_time_bits: Option<u64>,
    pub fingerprint: String,
    pub invocations_used: Option<i64>,
    pub contents_count: i64,
    pub created_at_bits: Option<u64>,
}

/// How a live session can be resumed.
#[derive(Debug, Clone, PartialEq)]
pub struct AdkLiveSessionResumptionUpdate {
    pub new_handle: Option<String>,
    pub resumable: Option<bool>,
    pub last_consumed_client_message_index: Option<i64>,
}

/// The answer of an agent; its average log probability is given by the bits of
/// the 64-bit floating-point number.
#[derive(Debug, PartialEq)]
pub struct AdkLlmResponse {
    pub model_version: Option<String>,
    pub content: Option<AdkContent>,
    pub grounding_metadata: Option<GroundingMetadata>,
    pub partial: Option<bool>,
    pub turn_complete: Option<bool>,
    pub finish_reason: Option<FinishReason>,
    pub error_code: Option<String>,
    pub error_message: Option<String>,
    pub interrupted: Option<bool>,
    pub usage_metadata: Option<AdkUsageMetadata>,
    pub avg_logprob_bits: Option<u64>,
    pub logprobs_result: Option<LogprobsResult>,
    pub cache_metadata: Option<AdkCacheMetadata>,
    pub citation_metadata: Option<CitationMetadata>,
    pub interaction_id: Option<String>,
    pub live_session_resumption_update: Option<AdkLiveSessionResumptionUpdate>,
    pub input_transcription: Option<AdkTranscription>,
    pub output_transcription: Option<AdkTranscription>,
    pub custom_metadata: Option<Json>,
}

/// The text of the last part with a text that is not empty, if there is one.
pub open spec fn last_nonempty_text(parts: Seq<AdkPart>) -> Option<Seq<char>>
    decreases parts.len(),
{
    if parts.len() == 0 {
        None
    } else {
        match parts.last().text {
            Some(t) => if t@.len() > 0 {
                Some(t@)
            } else {
                last_nonempty_text(parts.drop_last())
            },
            None => last_nonempty_text(parts.drop_last()),
        }
    }
}

/// The text of an answer: its last text that is not empty, or the empty text.
pub open spec fn adk_text(r: AdkLlmResponse) -> Seq<char> {
    match r.content {
        Some(c) => match last_nonempty_text(c.parts@) {
            Some(t) => t,
            None => Seq::empty(),
        },
        None => Seq::empty(),
    }
}

/// The function calls among the parts, in order.
pub open spec fn adk_calls(parts: Seq<AdkPart>) -> Seq<FunctionCall>
    decreases parts.len(),
{
    if parts.len() == 0 {
        Seq::empty()
    } else {
        let rest = adk_calls(parts.drop_last());
        match parts.last().function_call {
            Some(f) => rest.push(f),
            None => rest,
        }
    }
}

/// The function calls of an answer.
pub open spec fn response_calls(r: AdkLlmResponse) -> Seq<FunctionCall> {
    match r.content {
        Some(c) => adk_calls(c.parts@),
        None => Seq::empty(),
    }
}

/// The call as an agent reports it: the arguments as JSON text, empty when there are none.
pub open spec fn adk_call_info(f: FunctionCall, i: AdkToolCallInfo) -> bool {
    i.name == f.name && i.call_id == f.id && i.arguments_json@ == match f.args {
        Some(a) => json_render(a.view()),
        None => Seq::<char>::empty(),
    }
}

/// The call as the library reports it: the arguments, or null when there are none.
pub open spec fn adk_tool_call_info(f: FunctionCall, i: ToolCallInfo) -> bool {
    i.name == f.name && i.call_id == f.id && i.result is None && i.arguments.view() == match f.args {
        Some(a) => a.view(),
        None => JsonV::Null,
    }
}

/// The chosen tokens of the answer.
pub open spec fn adk_chosen(r: AdkLlmResponse) -> Seq<crate::google::response::LogprobsCandidate> {
    match r.logprobs_result {
        Some(l) => match l.chosen_candidates {
            Some(c) => c@,
            None => Seq::empty(),
        },
        None => Seq::empty(),
    }
}

impl AdkLlmResponse {
    /// Whether the answer has no content.
    pub fn is_empty(&self) -> (r: bool)
        ensures
            r == self.content is None,
    {
        self.content.is_none()
    }

    /// The identifier of the interaction, or the empty text.
    pub fn id(&self) -> (r: &str)
        ensures
            r@ == match self.interaction_id {
                Some(i) => i@,
                None => ""@,
            },
    {
        match &self.interaction_id {
            Some(i) => i.as_str(),
            None => "",
        }
    }

    /// The last text that is not empty, or the empty text.
    pub fn response_text(&self) -> (r: String)
        ensures
            r@ == adk_text(*self),
    {
        let c = match &self.content {
            Some(c) => c,
            None => {
                return String::new();
            },
        };
        let mut i = c.parts.len();
        assert(c.parts@.take(i as int) =~= c.parts@);
        while i > 0
            invariant
                i <= c.parts@.len(),
                self.content == Some(*c),
                last_nonempty_text(c.parts@) == last_nonempty_text(c.parts@.take(i as int)),
            decreases i,
        {
            proof {
                assert(c.parts@.take(i as int).drop_last() =~= c.parts@.take(i - 1));
                assert(c.parts@.take(i as int).last() == c.parts@[i - 1]);
            }
            match &c.parts[i - 1].text {
                Some(t) => {
                    if !t.as_str().is_empty() {
                        return t.clone();
                    }
                },
                None => {},
            }
            i = i - 1;
        }
        String::new()
    }

    /// The JSON that the answer's text holds, if there is text and it is JSON.
    pub fn structured_output_value(&self) -> (r: Option<Json>)
        ensures
            adk_text(*self).len() == 0 ==> r is None,
            adk_text(*self).len() > 0 ==> (r is Some == json_parse(adk_text(*self)) is Some) && (r matches Some(j) ==> j.view()
                == json_parse(adk_text(*self))->0),
    {
        let text = self.response_text();
        if text.as_str().is_empty() {
            return None;
        }
        parse_json(text.as_str())
    }

    /// The model that answered, if the answer names it.
    pub fn model_name(&self) -> (r: Option<&str>)
        ensures
            match self.model_version {
                Some(v) => r matches Some(m) && m@ == v@,
                None => r is None,
            },
    {
        match &self.model_version {
            Some(v) => Some(v.as_str()),
            None => None,
        }
    }

    /// Why the model stopped.
    pub fn finish_reason(&self) -> (r: Option<&str>)
        ensures
            match self.finish_reason {
                Some(f) => r matches Some(m) && m@ == finish_reason_name(f),
                None => r is None,
            },
    {
        match &self.finish_reason {
            Some(f) => Some(f.as_str()),
            None => None,
        }
    }

    /// The tokens of the prompt, when the answer reports usage.
    pub fn input_tokens(&self) -> (r: Option<i64>)
        ensures
            r == match self.usage_metadata {
                Some(u) => Some(match u.prompt_token_count {
                    Some(c) => c as i64,
                    None => 0i64,
                }),
                None => None::<i64>,
            },
    {
        match &self.usage_metadata {
            Some(u) => Some(match u.prompt_token_count {
                Some(c) => c as i64,
                None => 0,
            }),
            None => None,
        }
    }

    /// The tokens of the answer, when the answer reports usage.
    pub fn output_tokens(&self) -> (r: Option<i64>)
        ensures
            r == match self.usage_metadata {
                Some(u) => Some(match u.candidates_token_count {
                    Some(c) => c as i64,
                    None => 0i64,
                }),
                None => None::<i64>,
            },
    {
        match &self.usage_metadata {
            Some(u) => Some(match u.candidates_token_count {
                Some(c) => c as i64,
                None => 0,
            }),
            None => None,
        }
    }

    /// All tokens, when the answer reports usage.
    pub fn total_tokens(&self) -> (r: Option<i64>)
        ensures
            r == match self.usage_metadata {
                Some(u) => Some(match u.total_token_count {
                    Some(c) => c as i64,
                    None => 0i64,
                }),
                None => None::<i64>,
            },
    {
        match &self.usage_metadata {
            Some(u) => Some(match u.total_token_count {
                Some(c) => c as i64,
                None => 0,
            }),
            None => None,
        }
    }

    /// The functions that the agent called, with their arguments as JSON text.
    pub fn get_tool_calls(&self) -> (r: Vec<AdkToolCallInfo>)
        ensures
            r@.len() == response_calls(*self).len(),
            forall|k: int| 0 <= k < r@.len() ==> adk_call_info(response_calls(*self)[k], #[trigger] r@[k]),
    {
        let mut out: Vec<AdkToolCallInfo> = Vec::new();
        match &self.content {
            None => {},
            Some(c) => {
                let mut i: usize = 0;
                while i < c.parts.len()
                    invariant
                        i <= c.parts@.len(),
                        self.content == Some(*c),
                        out@.len() == adk_calls(c.parts@.take(i as int)).len(),
                        forall|k: int| 0 <= k < out@.len() ==> adk_call_info(adk_calls(c.parts@.take(i as int))[k], #[trigger] out@[k]),
                    decreases c.parts@.len() - i,
                {
                    proof {
                        assert(c.parts@.take(i + 1).drop_last() =~= c.parts@.take(i as int));
                        assert(c.parts@.take(i + 1).last() == c.parts@[i as int]);
                    }
                    match &c.parts[i].function_call {
                        Some(f) => {
                            let args = match &f.args {
                                Some(a) => render_json(a),
                                None => String::new(),
                            };
                            out.push(AdkToolCallInfo { name: f.name.clone(), call_id: clone_opt_str(&f.id), arguments_json: args });
                        },
                        None => {},
                    }
                    i = i + 1;
                }
                proof {
                    assert(c.parts@.take(i as int) =~= c.parts@);
                }
            },
        }
        out
    }

    /// The functions that the agent called, as the library reports tool calls.
    pub fn tool_call_infos(&self) -> (r: Vec<ToolCallInfo>)
        ensures
            r@.len() == response_calls(*self).len(),
            forall|k: int| 0 <= k < r@.len() ==> adk_tool_call_info(response_calls(*self)[k], #[trigger] r@[k]),
    {
        let mut out: Vec<ToolCallInfo> = Vec::new();
        match &self.content {
            None => {},
            Some(c) => {
                let mut i: usize = 0;
                while i < c.parts.len()
                    invariant
                        i <= c.parts@.len(),
                        self.content == Some(*c),
                        out@.len() == adk_calls(c.parts@.take(i as int)).len(),
                        forall|k: int| 0 <= k < out@.len() ==> adk_tool_call_info(adk_calls(c.parts@.take(i as int))[k], #[trigger] out@[k]),
                    decreases c.parts@.len() - i,
                {
                    proof {
                        assert(c.parts@.take(i + 1).drop_last() =~= c.parts@.take(i as int));
                        assert(c.parts@.take(i + 1).last() == c.parts@[i as int]);
                    }
                    match &c.parts[i].function_call {
                        Some(f) => {
                            let args = match &f.args {
                                Some(a) => a.cloned(),
                                None => Json::Null,
                            };
                            out.push(ToolCallInfo { name: f.name.clone(), arguments: args, call_id: clone_opt_str(&f.id), result: None });
                        },
                        None => {},
                    }
                    i = i + 1;
                }
                proof {
                    assert(c.parts@.take(i as int) =~= c.parts@);
                }
            },
        }
        out
    }

    /// The first function call as JSON, if the agent called a function.
    pub fn tool_call_output(&self) -> (r: Option<Json>)
        ensures
            response_calls(*self).len() == 0 ==> r is None,
            response_calls(*self).len() > 0 ==> (r matches Some(j) && j.view() == function_call_json(response_calls(*self)[0])),
    {
        match &self.content {
            None => None,
            Some(c) => {
                let mut i: usize = 0;
                while i < c.parts.len()
                    invariant
                        i <= c.parts@.len(),
                        self.content == Some(*c),
                        adk_calls(c.parts@.take(i as int)).len() == 0,
                    decreases c.parts@.len() - i,
                {
                    proof {
                        assert(c.parts@.take(i + 1).drop_last() =~= c.parts@.take(i as int));
                        assert(c.parts@.take(i + 1).last() == c.parts@[i as int]);
                    }
                    match &c.parts[i].function_call {
                        Some(f) => {
                            proof {
                                lemma_adk_calls_prefix(c.parts@, i + 1);
                            }
                            return Some(function_call_to_json(f));
                        },
                        None => {},
                    }
                    i = i + 1;
                }
                proof {
                    assert(c.parts@.take(i as int) =~= c.parts@);
                }
                None
            },
        }
    }

    /// The chosen tokens of one ASCII digit, with their log probabilities.
    pub fn get_log_probs(&self) -> (r: Vec<TokenLogProbs>)
        ensures
            r@.len() == digit_candidates(adk_chosen(*self)).len(),
            forall|k: int| 0 <= k < r@.len() ==> (#[trigger] r@[k]).token@ == digit_candidates(adk_chosen(*self))[k].0
                && r@[k].logprob_bits == digit_candidates(adk_chosen(*self))[k].1,
    {
        let mut out: Vec<TokenLogProbs> = Vec::new();
        match &self.logprobs_result {
            Some(l) => match &l.chosen_candidates {
                Some(chosen) => {
                    let mut i: usize = 0;
                    while i < chosen.len()
                        invariant
                            i <= chosen@.len(),
                            adk_chosen(*self) == chosen@,
                            out@.len() == digit_candidates(chosen@.take(i as int)).len(),
                            forall|k: int| 0 <= k < out@.len() ==> (#[trigger] out@[k]).token@ == digit_candidates(chosen@.take(i as int))[k].0
                                && out@[k].logprob_bits == digit_candidates(chosen@.take(i as int))[k].1,
                        decreases chosen@.len() - i,
                    {
                        proof {
                            assert(chosen@.take(i + 1).drop_last() =~= chosen@.take(i as int));
                            assert(chosen@.take(i + 1).last() == chosen@[i as int]);
                        }
                        match &chosen[i].token {
                            Some(t) => {
                                if is_digit_token(t.as_str()) {
                                    let bits = match chosen[i].log_probability_bits {
                                        Some(b) => b,
                                        None => 0,
                                    };
                                    out.push(TokenLogProbs { token: t.clone(), logprob_bits: bits });
                                }
                            },
                            None => {},
                        }
                        i = i + 1;
                    }
                    proof {
                        assert(chosen@.take(i as int) =~= chosen@);
                    }
                },
                None => {},
            },
            None => {},
        }
        out
    }
}

/// When the first `k` parts hold exactly one call, at the last of them, it is the
/// first call of all parts.
proof fn lemma_adk_calls_prefix(parts: Seq<AdkPart>, k: int)
    requires
        0 < k <= parts.len(),
        adk_calls(parts.take(k - 1)).len() == 0,
        parts[k - 1].function_call is Some,
    ensures
        adk_calls(parts).len() > 0,
        adk_calls(parts)[0] == parts[k - 1].function_call->0,
    decreases parts.len(),
{
    assert(parts.take(k).drop_last() =~= parts.take(k - 1));
    assert(parts.take(k).last() == parts[k - 1]);
    assert(adk_calls(parts.take(k)) == seq![parts[k - 1].function_call->0]);
    if k < parts.len() {
        assert(parts.drop_last().take(k) =~= parts.take(k));
        assert(parts.drop_last().take(k - 1) =~= parts.take(k - 1));
        assert(parts.drop_last()[k - 1] == parts[k - 1]);
        lemma_adk_calls_prefix(parts.drop_last(), k);
    } else {
        assert(parts.take(k) =~= parts);
    }
}

} // verus!
