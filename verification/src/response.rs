use vstd::prelude::*;

use crate::anthropic::request::{ContentBlockParam, MessageParam};
use crate::anthropic::response::{
    conversion_error, converted_block, from_response_content_block, AnthropicMessageResponse,
};
use crate::error::TypeError;
use crate::google::grounding::{same_opt_citations, same_opt_grounding};
use crate::google::adk::{adk_data, AdkContent, AdkLlmResponse};
use crate::google::predict::PredictResponse;
use crate::google::request::{same_content, GeminiContent, Part, plain_part};
use crate::google::response::{Candidate, GenerateContentResponse};
use crate::message::MessageNum;
use crate::openai::request::{ChatMessage, ContentPart};
use crate::openai::response::{Choice, OpenAIChatResponse};

verus! {

/// The content of an answer, in the format of its provider.
#[derive(Debug, PartialEq)]
pub enum ResponseContent {
    OpenAI(Choice),
    Google(Candidate),
    Anthropic(crate::anthropic::response::ResponseContentBlock),
    PredictResponse(PredictResponse),
}

/// The index of the first block that cannot be sent back, or the length when all can.
pub open spec fn first_unconvertible(blocks: Seq<crate::anthropic::response::ResponseContentBlock>) -> int
    decreases blocks.len(),
{
    if blocks.len() == 0 {
        0
    } else if conversion_error(blocks[0].inner) is Some {
        0
    } else {
        1 + first_unconvertible(blocks.drop_first())
    }
}

proof fn lemma_first_unconvertible(blocks: Seq<crate::anthropic::response::ResponseContentBlock>, i: int)
    requires
        0 <= i <= blocks.len(),
        forall|j: int| 0 <= j < i ==> conversion_error(#[trigger] blocks[j].inner) is None,
    ensures
        first_unconvertible(blocks) >= i,
        i < blocks.len() && conversion_error(blocks[i].inner) is Some ==> first_unconvertible(blocks) == i,
        first_unconvertible(blocks) <= blocks.len(),
    decreases blocks.len(),
{
    if blocks.len() > 0 {
        if i > 0 {
            let rest = blocks.drop_first();
            assert forall|j: int| 0 <= j < i - 1 implies conversion_error(#[trigger] rest[j].inner) is None by {
                assert(rest[j] == blocks[j + 1]);
            }
            lemma_first_unconvertible(rest, i - 1);
        } else {
            lemma_first_unconvertible(blocks.drop_first(), 0);
        }
    }
}

/// `m` is the assistant message of one block that stands for the response block `b`.
pub open spec fn assistant_message_of(b: crate::anthropic::response::ResponseContentBlockInner, m: MessageNum) -> bool {
    m matches MessageNum::AnthropicMessageV1(p) && p.role@ == "assistant"@ && p.content@.len() == 1 && converted_block(
        b,
        p.content@[0].inner,
    )
}

impl AnthropicMessageResponse {
    /// The answer as messages to send back: one assistant message for each
    /// block, failing at the first block that cannot be sent back.
    pub fn to_message_num(&self) -> (r: Result<Vec<MessageNum>, TypeError>)
        ensures
            first_unconvertible(self.content@) < self.content@.len() ==> (r matches Err(TypeError::InvalidInput(e))
                && Some(e@) == conversion_error(self.content@[first_unconvertible(self.content@)].inner)),
            first_unconvertible(self.content@) >= self.content@.len() ==> (r matches Ok(v) && v@.len() == self.content@.len()
                && forall|i: int| 0 <= i < v@.len() ==> assistant_message_of(self.content@[i].inner, #[trigger] v@[i])),
    {
        let mut out: Vec<MessageNum> = Vec::new();
        let mut i: usize = 0;
        while i < self.content.len()
            invariant
                i <= self.content@.len(),
                out@.len() == i,
                forall|j: int| 0 <= j < i ==> conversion_error(#[trigger] self.content@[j].inner) is None,
                forall|j: int| 0 <= j < i ==> assistant_message_of(self.content@[j].inner, #[trigger] out@[j]),
            decreases self.content@.len() - i,
        {
            match from_response_content_block(&self.content[i].inner) {
                Ok(p) => {
                    let mut content: Vec<ContentBlockParam> = Vec::new();
                    content.push(p);
                    out.push(MessageNum::AnthropicMessageV1(MessageParam { content, role: "assistant".to_owned() }));
                },
                Err(e) => {
                    proof {
                        lemma_first_unconvertible(self.content@, i as int);
                    }
                    return Err(e);
                },
            }
            i = i + 1;
        }
        proof {
            lemma_first_unconvertible(self.content@, i as int);
        }
        Ok(out)
    }
}

/// `m` is the message that a choice with text stands for: one text part in the
/// choice's role.
pub open spec fn choice_message(c: Choice, m: MessageNum) -> bool {
    c.message.content is Some && (m matches MessageNum::OpenAIMessageV1(x) && x.role@ == c.message.role@ && x.name is None
        && x.content@.len() == 1 && (x.content@[0] matches ContentPart::Text(t) && t.text == c.message.content->0
        && t.kind@ == "text"@))
}

/// The choices that hold text, in order.
pub open spec fn text_choices(choices: Seq<Choice>) -> Seq<Choice>
    decreases choices.len(),
{
    if choices.len() == 0 {
        Seq::empty()
    } else {
        let rest = text_choices(choices.drop_last());
        if choices.last().message.content is Some {
            rest.push(choices.last())
        } else {
            rest
        }
    }
}

impl Choice {
    /// The choice as a message, if it holds text.
    pub fn to_message_num(&self) -> (r: Result<MessageNum, TypeError>)
        ensures
            self.message.content is None ==> r == Err::<MessageNum, TypeError>(TypeError::EmptyOpenAIResponseContent),
            self.message.content is Some ==> (r matches Ok(m) && choice_message(*self, m)),
    {
        match &self.message.content {
            Some(content) => {
                let m = ChatMessage::from_text(content.clone(), self.message.role.as_str())?;
                Ok(MessageNum::OpenAIMessageV1(m))
            },
            None => Err(TypeError::EmptyOpenAIResponseContent),
        }
    }
}

impl OpenAIChatResponse {
    /// The choices that hold text, as messages; the others are left out.
    pub fn to_message_num(&self) -> (r: Result<Vec<MessageNum>, TypeError>)
        ensures
            r matches Ok(v) && v@.len() == text_choices(self.choices@).len() && forall|i: int|
                0 <= i < v@.len() ==> choice_message(text_choices(self.choices@)[i], #[trigger] v@[i]),
    {
        let mut out: Vec<MessageNum> = Vec::new();
        let mut i: usize = 0;
        while i < self.choices.len()
            invariant
                i <= self.choices@.len(),
                out@.len() == text_choices(self.choices@.take(i as int)).len(),
                forall|k: int| 0 <= k < out@.len() ==> choice_message(text_choices(self.choices@.take(i as int))[k], #[trigger] out@[k]),
            decreases self.choices@.len() - i,
        {
            proof {
                assert(self.choices@.take(i + 1).drop_last() =~= self.choices@.take(i as int));
                assert(self.choices@.take(i + 1).last() == self.choices@[i as int]);
            }
            match self.choices[i].to_message_num() {
                Ok(m) => out.push(m),
                Err(_) => {},
            }
            i = i + 1;
        }
        proof {
            assert(self.choices@.take(i as int) =~= self.choices@);
        }
        Ok(out)
    }
}

impl Candidate {
    /// The candidate's content as a message.
    pub fn to_message_num(&self) -> (r: Result<MessageNum, TypeError>)
        ensures
            r matches Ok(MessageNum::GeminiContentV1(g)) && same_content(self.content, g),
    {
        Ok(MessageNum::GeminiContentV1(self.content.duplicate()))
    }
}

impl GenerateContentResponse {
    /// The content of every candidate, as messages.
    pub fn to_message_num(&self) -> (r: Result<Vec<MessageNum>, TypeError>)
        ensures
            r matches Ok(v) && v@.len() == self.candidates@.len() && forall|i: int|
                0 <= i < v@.len() ==> (#[trigger] v@[i] matches MessageNum::GeminiContentV1(g) && same_content(self.candidates@[i].content, g)),
    {
        let mut out: Vec<MessageNum> = Vec::new();
        let mut i: usize = 0;
        while i < self.candidates.len()
            invariant
                i <= self.candidates@.len(),
                out@.len() == i,
                forall|k: int| 0 <= k < i ==> (#[trigger] out@[k] matches MessageNum::GeminiContentV1(g) && same_content(self.candidates@[k].content, g)),
            decreases self.candidates@.len() - i,
        {
            match self.candidates[i].to_message_num() {
                Ok(m) => out.push(m),
                Err(_) => {},
            }
            i = i + 1;
        }
        Ok(out)
    }
}

/// `g` is the message that an agent's content stands for: its role, and one
/// plain part for each of its parts, holding the part's data.
pub open spec fn adk_message(c: AdkContent, g: GeminiContent) -> bool {
    g.role == c.role && g.parts@.len() == c.parts@.len() && forall|i: int|
        0 <= i < g.parts@.len() ==> plain_part(#[trigger] g.parts@[i]) && adk_data(c.parts@[i], g.parts@[i].data)
}

impl AdkContent {
    /// The content as a Gemini message.
    pub fn to_gemini_content(&self) -> (r: GeminiContent)
        ensures
            adk_message(*self, r),
    {
        let mut parts: Vec<Part> = Vec::new();
        let mut i: usize = 0;
        while i < self.parts.len()
            invariant
                i <= self.parts@.len(),
                parts@.len() == i,
                forall|k: int| 0 <= k < i ==> plain_part(#[trigger] parts@[k]) && adk_data(self.parts@[k], parts@[k].data),
            decreases self.parts@.len() - i,
        {
            parts.push(Part::from_data(self.parts[i].to_data_num()));
            i = i + 1;
        }
        GeminiContent { role: self.role.clone(), parts }
    }

    /// The content as a message.
    pub fn to_message_num(&self) -> (r: Result<MessageNum, TypeError>)
        ensures
            r matches Ok(MessageNum::GeminiContentV1(g)) && adk_message(*self, g),
    {
        Ok(MessageNum::GeminiContentV1(self.to_gemini_content()))
    }
}

impl AdkLlmResponse {
    /// The answer as messages: one when it has content, none otherwise.
    pub fn to_message_num(&self) -> (r: Result<Vec<MessageNum>, TypeError>)
        ensures
            match self.content {
                Some(c) => r matches Ok(v) && v@.len() == 1 && (v@[0] matches MessageNum::GeminiContentV1(g) && adk_message(c, g)),
                None => r matches Ok(v) && v@.len() == 0,
            },
    {
        let mut out: Vec<MessageNum> = Vec::new();
        match &self.content {
            Some(c) => {
                let m = c.to_message_num()?;
                out.push(m);
            },
            None => {},
        }
        Ok(out)
    }

    /// The answer as a candidate: its content (an empty message of the model
    /// when there is none), its finish reason and copies of its citations and
    /// grounding.
    pub fn get_content(&self) -> (r: ResponseContent)
        ensures
            r matches ResponseContent::Google(c) && adk_candidate(*self, c),
    {
        let content = match &self.content {
            Some(c) => c.to_gemini_content(),
            None => GeminiContent { role: "model".to_owned(), parts: Vec::new() },
        };
        ResponseContent::Google(Candidate {
            index: Some(0),
            content,
            avg_logprob_bits: None,
            logprobs_result: None,
            finish_reason: self.finish_reason,
            safety_ratings: None,
            citation_metadata: match &self.citation_metadata {
                Some(m) => Some(m.duplicate()),
                None => None,
            },
            grounding_metadata: match &self.grounding_metadata {
                Some(m) => Some(m.duplicate()),
                None => None,
            },
            url_context_metadata: None,
            finish_message: None,
        })
    }
}

/// `c` is the candidate that stands for the agent's answer `r`.
pub open spec fn adk_candidate(r: AdkLlmResponse, c: Candidate) -> bool {
    &&& c.index == Some(0i32) && c.avg_logprob_bits is None && c.logprobs_result is None && c.safety_ratings is None
        && c.url_context_metadata is None && c.finish_message is None
    &&& c.finish_reason == r.finish_reason
    &&& same_opt_citations(r.citation_metadata, c.citation_metadata)
    &&& same_opt_grounding(r.grounding_metadata, c.grounding_metadata)
    &&& match r.content {
        Some(x) => adk_message(x, c.content),
        None => c.content.role@ == "model"@ && c.content.parts@.len() == 0,
    }
}

impl PredictResponse {
    /// Predictions cannot be read as messages.
    pub fn to_message_num(&self) -> (r: Result<Vec<MessageNum>, TypeError>)
        ensures
            r matches Err(TypeError::Error(m)) && m@ == "Cannot convert PredictResponse to MessageNum"@,
    {
        Err(TypeError::Error("Cannot convert PredictResponse to MessageNum".to_owned()))
    }
}

} // verus!
