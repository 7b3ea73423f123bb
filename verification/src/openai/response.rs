use vstd::prelude::*;

use crate::response::ResponseContent;
use crate::json::{json_parse, parse_json, Json, JsonV};
use crate::logprobs::{digit_token, is_digit_token, TokenLogProbs};
use crate::tools::ToolCallInfo;

verus! {

/// The function that a tool call names, with its arguments as JSON text.
#[derive(Debug, Clone, PartialEq)]
pub struct Function {
    pub arguments: String,
    pub name: String,
}

/// A call of a tool that the model asks for.
#[derive(Debug, Clone, PartialEq)]
pub struct ToolCall {
    pub id: String,
    pub kind: String,
    pub function: Function,
}

/// A citation of a web page in an answer.
#[derive(Debug, Clone, PartialEq)]
pub struct UrlCitation {
    pub end_index: u64,
    pub start_index: u64,
    pub title: String,
    pub url: String,
}

/// The annotations of an answer.
#[derive(Debug, Clone, PartialEq)]
pub struct Annotations {
    pub kind: String,
    pub url_citations: Vec<UrlCitation>,
}

/// Audio in an answer.
#[derive(Debug, Clone, PartialEq)]
pub struct Audio {
    pub data: String,
    pub expires_at: u64,
    pub id: String,
    pub transcript: String,
}

/// The message of an answer.
#[derive(Debug, Clone, PartialEq)]
pub struct ChatCompletionMessage {
    pub content: Option<String>,
    pub refusal: Option<String>,
    pub role: String,
    pub annotations: Vec<Annotations>,
    pub tool_calls: Vec<ToolCall>,
    pub audio: Option<Audio>,
}

/// One of the likeliest tokens at a place of the answer, with its log
/// probability given by the bits of the 64-bit floating-point number.
#[derive(Debug, Clone, PartialEq)]
pub struct TopLogProbs {
    pub bytes: Option<Vec<u8>>,
    pub logprob_bits: u64,
    pub token: String,
}

/// A token of the answer with its log probability, given by the bits of the
/// 64-bit floating-point number.
#[derive(Debug, Clone, PartialEq)]
pub struct LogContent {
    pub bytes: Option<Vec<u8>>,
    pub logprob_bits: u64,
    pub token: String,
    pub top_logprobs: Option<Vec<TopLogProbs>>,
}

/// The log probabilities of an answer.
#[derive(Debug, Clone, PartialEq)]
pub struct LogProbs {
    pub content: Option<Vec<LogContent>>,
    pub refusal: Option<Vec<LogContent>>,
}

/// One answer of the model.
#[derive(Debug, Clone, PartialEq)]
pub struct Choice {
    pub message: ChatCompletionMessage,
    pub finish_reason: String,
    pub logprobs: Option<LogProbs>,
}

/// The tokens of the answer, by kind.
#[derive(Debug, Clone, Copy, PartialEq, Eq, Structural)]
pub struct CompletionTokenDetails {
    pub accepted_prediction_tokens: u64,
    pub audio_tokens: u64,
    pub reasoning_tokens: u64,
    pub rejected_prediction_tokens: u64,
}

impl Default for CompletionTokenDetails {
    fn default() -> (r: Self)
        ensures
            r.accepted_prediction_tokens == 0 && r.audio_tokens == 0 && r.reasoning_tokens == 0
                && r.rejected_prediction_tokens == 0,
    {
        CompletionTokenDetails {
            accepted_prediction_tokens: 0,
            audio_tokens: 0,
            reasoning_tokens: 0,
            rejected_prediction_tokens: 0,
        }
    }
}

/// The tokens of the prompt, by kind.
#[derive(Debug, Clone, Copy, PartialEq, Eq, Structural)]
pub struct PromptTokenDetails {
    pub audio_tokens: u64,
    pub cached_tokens: u64,
}

impl Default for PromptTokenDetails {
    fn default() -> (r: Self)
        ensures
            r.audio_tokens == 0 && r.cached_tokens == 0,
    {
        PromptTokenDetails { audio_tokens: 0, cached_tokens: 0 }
    }
}

/// The tokens that a request used.
#[derive(Debug, Clone, PartialEq)]
pub struct Usage {
    pub completion_tokens: u64,
    pub prompt_tokens: u64,
    pub total_tokens: u64,
    pub completion_tokens_details: CompletionTokenDetails,
    pub prompt_tokens_details: PromptTokenDetails,
    pub finish_reason: Option<String>,
}

/// The answer of an OpenAI chat model.
#[derive(Debug, Clone, PartialEq)]
pub struct OpenAIChatResponse {
    pub id: String,
    pub object: String,
    pub created: u64,
    pub model: String,
    pub choices: Vec<Choice>,
    pub usage: Usage,
    pub service_tier: Option<String>,
    pub system_fingerprint: Option<String>,
}

/// The JSON of a tool call:
/// `{"function": {"arguments", "name"}, "id", "type"}`.
pub open spec fn tool_call_json(c: ToolCall) -> JsonV {
    JsonV::Object(
        seq![
            ("function"@, JsonV::Object(seq![
                ("arguments"@, JsonV::Str(c.function.arguments@)),
                ("name"@, JsonV::Str(c.function.name@)),
            ])),
            ("id"@, JsonV::Str(c.id@)),
            ("type"@, JsonV::Str(c.kind@)),
        ],
    )
}

/// The tool calls of all choices, in order.
pub open spec fn all_tool_calls(choices: Seq<Choice>) -> Seq<ToolCall>
    decreases choices.len(),
{
    if choices.len() == 0 {
        Seq::empty()
    } else {
        all_tool_calls(choices.drop_last()) + choices.last().message.tool_calls@
    }
}

/// The call of a tool as the library reports it: the arguments stay JSON text.
pub open spec fn openai_call_info(c: ToolCall, i: ToolCallInfo) -> bool {
    i.name == c.function.name && i.arguments.view() == JsonV::Str(c.function.arguments@) && i.call_id == Some(c.id)
        && i.result is None
}

/// The tokens of one digit among `content`, in order.
pub open spec fn digit_log_probs(content: Seq<LogContent>) -> Seq<(Seq<char>, u64)>
    decreases content.len(),
{
    if content.len() == 0 {
        Seq::empty()
    } else {
        let rest = digit_log_probs(content.drop_last());
        let c = content.last();
        if digit_token(c.token@) {
            rest.push((c.token@, c.logprob_bits))
        } else {
            rest
        }
    }
}

/// The log contents of the first choice, if it has any.
pub open spec fn first_log_content(choices: Seq<Choice>) -> Seq<LogContent> {
    if choices.len() == 0 {
        Seq::empty()
    } else {
        match choices[0].logprobs {
            Some(l) => match l.content {
                Some(c) => c@,
                None => Seq::empty(),
            },
            None => Seq::empty(),
        }
    }
}

/// The JSON of a tool call.
fn tool_call_to_json(c: &ToolCall) -> (r: Json)
    ensures
        r.view() == tool_call_json(*c),
{
    let a = Json::Str(c.function.arguments.clone());
    let n = Json::Str(c.function.name.clone());
    assert(a.view() == JsonV::Str(c.function.arguments@));
    assert(n.view() == JsonV::Str(c.function.name@));
    let ka = "arguments".to_owned();
    let kn = "name".to_owned();
    let mut inner: Vec<(String, Json)> = Vec::new();
    inner.push((ka, a));
    inner.push((kn, n));
    let f = Json::Object(inner);
    proof {
        let o = f.view()->Object_0;
        assert(o.len() == 2);
        assert(o[0] == ("arguments"@, JsonV::Str(c.function.arguments@)));
        assert(o[1] == ("name"@, JsonV::Str(c.function.name@)));
        assert(o =~= seq![("arguments"@, JsonV::Str(c.function.arguments@)), ("name"@, JsonV::Str(c.function.name@))]);
    }
    let id = Json::Str(c.id.clone());
    let ty = Json::Str(c.kind.clone());
    assert(id.view() == JsonV::Str(c.id@));
    assert(ty.view() == JsonV::Str(c.kind@));
    let kf = "function".to_owned();
    let ki = "id".to_owned();
    let kt = "type".to_owned();
    let ghost fv = f.view();
    let mut outer: Vec<(String, Json)> = Vec::new();
    outer.push((kf, f));
    outer.push((ki, id));
    outer.push((kt, ty));
    let r = Json::Object(outer);
    proof {
        let o = r.view()->Object_0;
        assert(o.len() == 3);
        assert(o[0] == ("function"@, fv));
        assert(o[1] == ("id"@, JsonV::Str(c.id@)));
        assert(o[2] == ("type"@, JsonV::Str(c.kind@)));
        assert(o =~= tool_call_json(*c)->Object_0);
    }
    r
}

/// An optional list, taken as a sequence.
pub open spec fn opt_list<T>(o: Option<Vec<T>>) -> Option<Seq<T>> {
    match o {
        Some(v) => Some(v@),
        None => None,
    }
}

/// Two likeliest tokens hold the same values.
pub open spec fn same_top_logprob(a: TopLogProbs, b: TopLogProbs) -> bool {
    opt_list(a.bytes) == opt_list(b.bytes) && a.logprob_bits == b.logprob_bits && a.token == b.token
}

/// Two tokens of an answer hold the same values.
pub open spec fn same_log_content(a: LogContent, b: LogContent) -> bool {
    &&& opt_list(a.bytes) == opt_list(b.bytes)
    &&& a.logprob_bits == b.logprob_bits
    &&& a.token == b.token
    &&& match (a.top_logprobs, b.top_logprobs) {
        (Some(x), Some(y)) => x@.len() == y@.len() && forall|i: int|
            0 <= i < x@.len() ==> same_top_logprob(#[trigger] x@[i], y@[i]),
        (None, None) => true,
        _ => false,
    }
}

/// Two optional lists of tokens hold the same values, one by one.
pub open spec fn same_log_contents(a: Option<Vec<LogContent>>, b: Option<Vec<LogContent>>) -> bool {
    match (a, b) {
        (Some(x), Some(y)) => x@.len() == y@.len() && forall|i: int|
            0 <= i < x@.len() ==> same_log_content(#[trigger] x@[i], y@[i]),
        (None, None) => true,
        _ => false,
    }
}

/// Two annotations hold the same values.
pub open spec fn same_annotations(a: Annotations, b: Annotations) -> bool {
    a.kind == b.kind && a.url_citations@ == b.url_citations@
}

/// Two answers of the model hold the same values.
pub open spec fn same_choice(a: Choice, b: Choice) -> bool {
    &&& a.message.content == b.message.content
    &&& a.message.refusal == b.message.refusal
    &&& a.message.role == b.message.role
    &&& a.message.annotations@.len() == b.message.annotations@.len()
    &&& forall|i: int|
        0 <= i < a.message.annotations@.len() ==> same_annotations(
            #[trigger] a.message.annotations@[i],
            b.message.annotations@[i],
        )
    &&& a.message.tool_calls@ == b.message.tool_calls@
    &&& a.message.audio == b.message.audio
    &&& a.finish_reason == b.finish_reason
    &&& match (a.logprobs, b.logprobs) {
        (Some(x), Some(y)) => same_log_contents(x.content, y.content) && same_log_contents(x.refusal, y.refusal),
        (None, None) => true,
        _ => false,
    }
}

/// A copy of a list of bytes.
fn copy_bytes(v: &Option<Vec<u8>>) -> (r: Option<Vec<u8>>)
    ensures
        opt_list(r) == opt_list(*v),
{
    match v {
        Some(b) => {
            let mut out: Vec<u8> = Vec::new();
            let mut i: usize = 0;
            while i < b.len()
                invariant
                    i <= b@.len(),
                    out@ == b@.take(i as int),
                decreases b@.len() - i,
            {
                out.push(b[i]);
                proof {
                    assert(b@.take(i + 1) =~= b@.take(i as int).push(b@[i as int]));
                }
                i = i + 1;
            }
            proof {
                assert(b@.take(i as int) =~= b@);
            }
            Some(out)
        },
        None => None,
    }
}

/// A copy of a token of an answer.
fn copy_log_content(c: &LogContent) -> (r: LogContent)
    ensures
        same_log_content(*c, r),
{
    let top_logprobs = match &c.top_logprobs {
        Some(v) => {
            let mut out: Vec<TopLogProbs> = Vec::new();
            let mut i: usize = 0;
            while i < v.len()
                invariant
                    i <= v@.len(),
                    out@.len() == i,
                    forall|j: int| 0 <= j < i ==> same_top_logprob(#[trigger] v@[j], out@[j]),
                decreases v@.len() - i,
            {
                let t = &v[i];
                out.push(TopLogProbs { bytes: copy_bytes(&t.bytes), logprob_bits: t.logprob_bits, token: t.token.clone() });
                i = i + 1;
            }
            Some(out)
        },
        None => None,
    };
    LogContent { bytes: copy_bytes(&c.bytes), logprob_bits: c.logprob_bits, token: c.token.clone(), top_logprobs }
}

/// A copy of an optional list of tokens.
fn copy_log_contents(o: &Option<Vec<LogContent>>) -> (r: Option<Vec<LogContent>>)
    ensures
        same_log_contents(*o, r),
{
    match o {
        Some(v) => {
            let mut out: Vec<LogContent> = Vec::new();
            let mut i: usize = 0;
            while i < v.len()
                invariant
                    i <= v@.len(),
                    out@.len() == i,
                    forall|j: int| 0 <= j < i ==> same_log_content(#[trigger] v@[j], out@[j]),
                decreases v@.len() - i,
            {
                out.push(copy_log_content(&v[i]));
                i = i + 1;
            }
            Some(out)
        },
        None => None,
    }
}

/// A copy of a list of web citations.
fn copy_url_citations(v: &Vec<UrlCitation>) -> (r: Vec<UrlCitation>)
    ensures
        r@ == v@,
{
    let mut out: Vec<UrlCitation> = Vec::new();
    let mut i: usize = 0;
    while i < v.len()
        invariant
            i <= v@.len(),
            out@ == v@.take(i as int),
        decreases v@.len() - i,
    {
        let c = &v[i];
        out.push(
            UrlCitation { end_index: c.end_index, start_index: c.start_index, title: c.title.clone(), url: c.url.clone() },
        );
        proof {
            assert(v@.take(i + 1) =~= v@.take(i as int).push(v@[i as int]));
        }
        i = i + 1;
    }
    proof {
        assert(v@.take(i as int) =~= v@);
    }
    out
}

/// A copy of a list of tool calls.
fn copy_tool_calls(v: &Vec<ToolCall>) -> (r: Vec<ToolCall>)
    ensures
        r@ == v@,
{
    let mut out: Vec<ToolCall> = Vec::new();
    let mut i: usize = 0;
    while i < v.len()
        invariant
            i <= v@.len(),
            out@ == v@.take(i as int),
        decreases v@.len() - i,
    {
        let c = &v[i];
        out.push(
            ToolCall {
                id: c.id.clone(),
                kind: c.kind.clone(),
                function: Function { arguments: c.function.arguments.clone(), name: c.function.name.clone() },
            },
        );
        proof {
            assert(v@.take(i + 1) =~= v@.take(i as int).push(v@[i as int]));
        }
        i = i + 1;
    }
    proof {
        assert(v@.take(i as int) =~= v@);
    }
    out
}

/// An answer with nothing in it: no content, empty role and finish reason, no
/// annotations, tool calls, audio or log probabilities.
pub open spec fn empty_choice(c: Choice) -> bool {
    &&& c.message.content is None && c.message.refusal is None && c.message.role@.len() == 0
    &&& c.message.annotations@.len() == 0 && c.message.tool_calls@.len() == 0 && c.message.audio is None
    &&& c.finish_reason@.len() == 0 && c.logprobs is None
}

impl Choice {
    /// A copy of the answer.
    pub fn duplicate(&self) -> (r: Choice)
        ensures
            same_choice(*self, r),
    {
        let m = &self.message;
        let mut annotations: Vec<Annotations> = Vec::new();
        let mut i: usize = 0;
        while i < m.annotations.len()
            invariant
                i <= m.annotations@.len(),
                annotations@.len() == i,
                forall|j: int| 0 <= j < i ==> same_annotations(#[trigger] m.annotations@[j], annotations@[j]),
            decreases m.annotations@.len() - i,
        {
            let a = &m.annotations[i];
            annotations.push(Annotations { kind: a.kind.clone(), url_citations: copy_url_citations(&a.url_citations) });
            i = i + 1;
        }
        let audio = match &m.audio {
            Some(a) => Some(
                Audio { data: a.data.clone(), expires_at: a.expires_at, id: a.id.clone(), transcript: a.transcript.clone() },
            ),
            None => None,
        };
        let message = ChatCompletionMessage {
            content: crate::text::clone_opt_str(&m.content),
            refusal: crate::text::clone_opt_str(&m.refusal),
            role: m.role.clone(),
            annotations,
            tool_calls: copy_tool_calls(&m.tool_calls),
            audio,
        };
        let logprobs = match &self.logprobs {
            Some(l) => Some(LogProbs { content: copy_log_contents(&l.content), refusal: copy_log_contents(&l.refusal) }),
            None => None,
        };
        Choice { message, finish_reason: self.finish_reason.clone(), logprobs }
    }

    /// The answer with nothing in it: no content, empty role and finish reason,
    /// no annotations, tool calls, audio or log probabilities.
    pub fn empty() -> (r: Choice)
        ensures
            empty_choice(r),
    {
        Choice {
            message: ChatCompletionMessage {
                content: None,
                refusal: None,
                role: String::new(),
                annotations: Vec::new(),
                tool_calls: Vec::new(),
                audio: None,
            },
            finish_reason: String::new(),
            logprobs: None,
        }
    }
}

impl OpenAIChatResponse {
    /// The first answer, or the empty answer when there is none.
    pub fn get_content(&self) -> (r: ResponseContent)
        ensures
            r matches ResponseContent::OpenAI(c) && (self.choices@.len() > 0 ==> same_choice(self.choices@[0], c)) && (
            self.choices@.len() == 0 ==> empty_choice(c)),
    {
        if self.choices.len() > 0 {
            ResponseContent::OpenAI(self.choices[0].duplicate())
        } else {
            ResponseContent::OpenAI(Choice::empty())
        }
    }
}

impl OpenAIChatResponse {
    /// Whether the answer has no choices.
    pub fn is_empty(&self) -> (r: bool)
        ensures
            r == (self.choices@.len() == 0),
    {
        self.choices.len() == 0
    }

    /// The identifier of the answer.
    pub fn id(&self) -> (r: &str)
        ensures
            r@ == self.id@,
    {
        self.id.as_str()
    }

    /// The text of the first choice, or the empty text.
    pub fn response_text(&self) -> (r: String)
        ensures
            r@ == (if self.choices@.len() == 0 {
                Seq::<char>::empty()
            } else {
                match self.choices@[0].message.content {
                    Some(t) => t@,
                    None => Seq::<char>::empty(),
                }
            }),
    {
        if self.choices.len() == 0 {
            return String::new();
        }
        match &self.choices[0].message.content {
            Some(t) => t.clone(),
            None => String::new(),
        }
    }

    /// The JSON that the text of the first choice holds, if it holds JSON.
    pub fn structured_output_value(&self) -> (r: Option<Json>)
        ensures
            self.choices@.len() == 0 ==> r is None,
            self.choices@.len() > 0 ==> match self.choices@[0].message.content {
                Some(t) => (r is Some == json_parse(t@) is Some) && (r matches Some(j) ==> j.view() == json_parse(t@)->0),
                None => r is None,
            },
    {
        if self.choices.len() == 0 {
            return None;
        }
        match &self.choices[0].message.content {
            Some(t) => parse_json(t.as_str()),
            None => None,
        }
    }

    /// The model that answered.
    pub fn model_name(&self) -> (r: Option<&str>)
        ensures
            r matches Some(m) && m@ == self.model@,
    {
        Some(self.model.as_str())
    }

    /// Why the model stopped in its first choice.
    pub fn finish_reason(&self) -> (r: Option<&str>)
        ensures
            self.choices@.len() == 0 ==> r is None,
            self.choices@.len() > 0 ==> (r matches Some(f) && f@ == self.choices@[0].finish_reason@),
    {
        if self.choices.len() == 0 {
            None
        } else {
            Some(self.choices[0].finish_reason.as_str())
        }
    }

    /// The tokens of the prompt.
    pub fn input_tokens(&self) -> (r: Option<i64>)
        ensures
            r == Some(self.usage.prompt_tokens as i64),
    {
        Some(self.usage.prompt_tokens as i64)
    }

    /// The tokens of the answer.
    pub fn output_tokens(&self) -> (r: Option<i64>)
        ensures
            r == Some(self.usage.completion_tokens as i64),
    {
        Some(self.usage.completion_tokens as i64)
    }

    /// The tokens of prompt and answer together.
    pub fn total_tokens(&self) -> (r: Option<i64>)
        ensures
            r == Some(self.usage.total_tokens as i64),
    {
        Some(self.usage.total_tokens as i64)
    }

    /// The tools that the model called, over all choices, in order.
    pub fn get_tool_calls(&self) -> (r: Vec<ToolCallInfo>)
        ensures
            r@.len() == all_tool_calls(self.choices@).len(),
            forall|k: int| 0 <= k < r@.len() ==> openai_call_info(all_tool_calls(self.choices@)[k], #[trigger] r@[k]),
    {
        let mut out: Vec<ToolCallInfo> = Vec::new();
        let mut i: usize = 0;
        while i < self.choices.len()
            invariant
                i <= self.choices@.len(),
                out@.len() == all_tool_calls(self.choices@.take(i as int)).len(),
                forall|k: int| 0 <= k < out@.len() ==> openai_call_info(all_tool_calls(self.choices@.take(i as int))[k], #[trigger] out@[k]),
            decreases self.choices@.len() - i,
        {
            let calls = &self.choices[i].message.tool_calls;
            let ghost before = all_tool_calls(self.choices@.take(i as int));
            proof {
                assert(self.choices@.take(i + 1).drop_last() =~= self.choices@.take(i as int));
                assert(self.choices@.take(i + 1).last() == self.choices@[i as int]);
            }
            let ghost o0 = out@.len();
            let mut j: usize = 0;
            while j < calls.len()
                invariant
                    j <= calls@.len(),
                    out@.len() == before.len() + j,
                    forall|k: int| 0 <= k < before.len() ==> openai_call_info(before[k], #[trigger] out@[k]),
                    forall|k: int| 0 <= k < j ==> openai_call_info(calls@[k], #[trigger] out@[before.len() + k]),
                decreases calls@.len() - j,
            {
                let c = &calls[j];
                out.push(ToolCallInfo {
                    name: c.function.name.clone(),
                    arguments: Json::Str(c.function.arguments.clone()),
                    call_id: Some(c.id.clone()),
                    result: None,
                });
                proof {
                    assert(out@[before.len() + j] == out@[out@.len() - 1]);
                }
                j = j + 1;
            }
            proof {
                let after = all_tool_calls(self.choices@.take(i + 1));
                assert(after == before + calls@);
                assert forall|k: int| 0 <= k < out@.len() implies openai_call_info(after[k], #[trigger] out@[k]) by {
                    if k < before.len() {
                        assert(after[k] == before[k]);
                    } else {
                        assert(after[k] == calls@[k - before.len()]);
                        assert(out@[before.len() + (k - before.len())] == out@[k]);
                    }
                }
            }
            i = i + 1;
        }
        proof {
            assert(self.choices@.take(i as int) =~= self.choices@);
        }
        out
    }

    /// The tool calls of the first choice as a JSON array, if it has any.
    pub fn tool_call_output(&self) -> (r: Option<Json>)
        ensures
            (self.choices@.len() == 0 || self.choices@[0].message.tool_calls@.len() == 0) ==> r is None,
            (self.choices@.len() > 0 && self.choices@[0].message.tool_calls@.len() > 0) ==> (r matches Some(j)
                && j.view() == JsonV::Array(self.choices@[0].message.tool_calls@.map_values(|c: ToolCall| tool_call_json(c)))),
    {
        if self.choices.len() == 0 {
            return None;
        }
        let calls = &self.choices[0].message.tool_calls;
        if calls.len() == 0 {
            return None;
        }
        let mut items: Vec<Json> = Vec::new();
        let mut i: usize = 0;
        while i < calls.len()
            invariant
                i <= calls@.len(),
                items@.len() == i,
                forall|k: int| 0 <= k < i ==> (#[trigger] items@[k]).view() == tool_call_json(calls@[k]),
            decreases calls@.len() - i,
        {
            items.push(tool_call_to_json(&calls[i]));
            i = i + 1;
        }
        let r = Json::Array(items);
        proof {
            assert(r.view()->Array_0 =~= calls@.map_values(|c: ToolCall| tool_call_json(c)));
        }
        Some(r)
    }

    /// The tokens of one ASCII digit in the first choice, with their log probabilities.
    pub fn get_log_probs(&self) -> (r: Vec<TokenLogProbs>)
        ensures
            r@.len() == digit_log_probs(first_log_content(self.choices@)).len(),
            forall|k: int| 0 <= k < r@.len() ==> (#[trigger] r@[k]).token@ == digit_log_probs(first_log_content(self.choices@))[k].0
                && r@[k].logprob_bits == digit_log_probs(first_log_content(self.choices@))[k].1,
    {
        let mut out: Vec<TokenLogProbs> = Vec::new();
        if self.choices.len() == 0 {
            return out;
        }
        match &self.choices[0].logprobs {
            Some(l) => match &l.content {
                Some(content) => {
                    let mut i: usize = 0;
                    while i < content.len()
                        invariant
                            i <= content@.len(),
                            first_log_content(self.choices@) == content@,
                            out@.len() == digit_log_probs(content@.take(i as int)).len(),
                            forall|k: int| 0 <= k < out@.len() ==> (#[trigger] out@[k]).token@ == digit_log_probs(content@.take(i as int))[k].0
                                && out@[k].logprob_bits == digit_log_probs(content@.take(i as int))[k].1,
                        decreases content@.len() - i,
                    {
                        proof {
                            assert(content@.take(i + 1).drop_last() =~= content@.take(i as int));
                            assert(content@.take(i + 1).last() == content@[i as int]);
                        }
                        if is_digit_token(content[i].token.as_str()) {
                            out.push(TokenLogProbs { token: content[i].token.clone(), logprob_bits: content[i].logprob_bits });
                        }
                        i = i + 1;
                    }
                    proof {
                        assert(content@.take(i as int) =~= content@);
                    }
                },
                None => {},
            },
            None => {},
        }
        out
    }
}

} // verus!
