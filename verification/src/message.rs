use vstd::prelude::*;

use crate::anthropic::request::{
    block_texts, bound_message, ContentBlock, ContentBlockParam, MessageParam, TextBlockParam, same_message,
};
use crate::error::TypeError;
use crate::google::request::{
    bound_content, gemini_texts, plain_part, same_content, DataNum, GeminiContent, Part,
};
use crate::json::Json;
use crate::openai::request::{bound_chat_message, part_texts, ChatMessage, ContentPart, TextContentPart};
use crate::template::vars_of_texts;
use crate::text::str_eq;
use crate::types::{Provider, Role, role_name};
use crate::workflow::tasklist::sv;

verus! {

/// Whether every block of an Anthropic message is text.
pub open spec fn all_text_blocks(c: Seq<ContentBlockParam>) -> bool {
    forall|i: int| 0 <= i < c.len() ==> #[trigger] c[i].inner is Text
}

/// Whether every part of a Gemini message is text.
pub open spec fn all_text_parts(p: Seq<Part>) -> bool {
    forall|i: int| 0 <= i < p.len() ==> #[trigger] p[i].data is Text
}

/// Whether every part of an OpenAI message is text.
pub open spec fn all_text_content(p: Seq<ContentPart>) -> bool {
    forall|i: int| 0 <= i < p.len() ==> #[trigger] p[i] is Text
}

/// The text of a text block, a text part or a text content part.
pub open spec fn block_text(b: ContentBlockParam) -> Seq<char> {
    match b.inner {
        ContentBlock::Text(t) => t.text@,
        _ => Seq::empty(),
    }
}

pub open spec fn part_text(p: Part) -> Seq<char> {
    match p.data {
        DataNum::Text(t) => t@,
        _ => Seq::empty(),
    }
}

pub open spec fn content_text(p: ContentPart) -> Seq<char> {
    match p {
        ContentPart::Text(t) => t.text@,
        _ => Seq::empty(),
    }
}

/// `t` is a plain text block of the Anthropic format holding `text`.
pub open spec fn plain_text_block(b: ContentBlockParam, text: Seq<char>) -> bool {
    b.inner matches ContentBlock::Text(t) && t.text@ == text && t.cache_control is None && t.citations is None
        && t.kind@ == "text"@
}

/// `p` is a plain text part of the Gemini format holding `text`.
pub open spec fn plain_text_part(p: Part, text: Seq<char>) -> bool {
    (p.data matches DataNum::Text(t) && t@ == text) && plain_part(p)
}

/// `p` is a text part of the OpenAI format holding `text`.
pub open spec fn plain_text_content(p: ContentPart, text: Seq<char>) -> bool {
    p matches ContentPart::Text(t) && t.text@ == text && t.kind@ == "text"@
}

impl MessageParam {
    /// The same message in the Gemini format. Only text blocks can be converted.
    pub fn to_google_message(&self) -> (r: Result<GeminiContent, TypeError>)
        ensures
            !all_text_blocks(self.content@) ==> (r matches Err(TypeError::UnsupportedConversion(m))
                && m@ == "Only text content blocks are currently supported for conversion"@),
            all_text_blocks(self.content@) && self.content@.len() == 0 ==> (r matches Err(TypeError::UnsupportedConversion(m))
                && m@ == "Message contains no text content to convert"@),
            all_text_blocks(self.content@) && self.content@.len() > 0 ==> (r matches Ok(g) && g.role == self.role
                && g.parts@.len() == self.content@.len() && forall|i: int| 0 <= i < g.parts@.len()
                ==> plain_text_part(#[trigger] g.parts@[i], block_text(self.content@[i]))),
    {
        let mut parts: Vec<Part> = Vec::new();
        let mut i: usize = 0;
        while i < self.content.len()
            invariant
                i <= self.content@.len(),
                parts@.len() == i,
                forall|k: int| 0 <= k < i ==> #[trigger] self.content@[k].inner is Text,
                forall|k: int| 0 <= k < i ==> plain_text_part(#[trigger] parts@[k], block_text(self.content@[k])),
            decreases self.content@.len() - i,
        {
            match &self.content[i].inner {
                ContentBlock::Text(t) => {
                    parts.push(Part::from_text(t.text.clone()));
                },
                _ => {
                    return Err(
                        TypeError::UnsupportedConversion(
                            "Only text content blocks are currently supported for conversion".to_owned(),
                        ),
                    );
                },
            }
            i = i + 1;
        }
        if parts.len() == 0 {
            return Err(TypeError::UnsupportedConversion("Message contains no text content to convert".to_owned()));
        }
        Ok(GeminiContent { role: self.role.clone(), parts })
    }

    /// The same message in the OpenAI format. Only text blocks can be converted.
    pub fn to_openai_message(&self) -> (r: Result<ChatMessage, TypeError>)
        ensures
            !all_text_blocks(self.content@) ==> (r matches Err(TypeError::UnsupportedConversion(m))
                && m@ == "Only text content blocks are currently supported for conversion"@),
            all_text_blocks(self.content@) && self.content@.len() == 0 ==> (r matches Err(TypeError::UnsupportedConversion(m))
                && m@ == "Message contains no text content to convert"@),
            all_text_blocks(self.content@) && self.content@.len() > 0 ==> (r matches Ok(c) && c.role == self.role
                && c.name is None && c.content@.len() == self.content@.len() && forall|i: int|
                0 <= i < c.content@.len() ==> plain_text_content(#[trigger] c.content@[i], block_text(self.content@[i]))),
    {
        let mut parts: Vec<ContentPart> = Vec::new();
        let mut i: usize = 0;
        while i < self.content.len()
            invariant
                i <= self.content@.len(),
                parts@.len() == i,
                forall|k: int| 0 <= k < i ==> #[trigger] self.content@[k].inner is Text,
                forall|k: int| 0 <= k < i ==> plain_text_content(#[trigger] parts@[k], block_text(self.content@[k])),
            decreases self.content@.len() - i,
        {
            match &self.content[i].inner {
                ContentBlock::Text(t) => {
                    parts.push(ContentPart::Text(TextContentPart::new(t.text.clone())));
                },
                _ => {
                    return Err(
                        TypeError::UnsupportedConversion(
                            "Only text content blocks are currently supported for conversion".to_owned(),
                        ),
                    );
                },
            }
            i = i + 1;
        }
        if parts.len() == 0 {
            return Err(TypeError::UnsupportedConversion("Message contains no text content to convert".to_owned()));
        }
        Ok(ChatMessage { role: self.role.clone(), content: parts, name: None })
    }
}

impl GeminiContent {
    /// The same message in the Anthropic format. Only text parts can be converted.
    pub fn to_anthropic_message(&self) -> (r: Result<MessageParam, TypeError>)
        ensures
            !all_text_parts(self.parts@) ==> (r matches Err(TypeError::UnsupportedConversion(m))
                && m@ == "Only text parts are currently supported for conversion"@),
            all_text_parts(self.parts@) && self.parts@.len() == 0 ==> (r matches Err(TypeError::UnsupportedConversion(m))
                && m@ == "Message contains no text content to convert"@),
            all_text_parts(self.parts@) && self.parts@.len() > 0 ==> (r matches Ok(a) && a.role == self.role
                && a.content@.len() == self.parts@.len() && forall|i: int| 0 <= i < a.content@.len()
                ==> plain_text_block(#[trigger] a.content@[i], part_text(self.parts@[i]))),
    {
        let mut blocks: Vec<ContentBlockParam> = Vec::new();
        let mut i: usize = 0;
        while i < self.parts.len()
            invariant
                i <= self.parts@.len(),
                blocks@.len() == i,
                forall|k: int| 0 <= k < i ==> #[trigger] self.parts@[k].data is Text,
                forall|k: int| 0 <= k < i ==> plain_text_block(#[trigger] blocks@[k], part_text(self.parts@[k])),
            decreases self.parts@.len() - i,
        {
            match &self.parts[i].data {
                DataNum::Text(t) => {
                    blocks.push(ContentBlockParam { inner: ContentBlock::Text(TextBlockParam::new_rs(t.clone(), None, None)) });
                },
                _ => {
                    return Err(
                        TypeError::UnsupportedConversion("Only text parts are currently supported for conversion".to_owned()),
                    );
                },
            }
            i = i + 1;
        }
        if blocks.len() == 0 {
            return Err(TypeError::UnsupportedConversion("Message contains no text content to convert".to_owned()));
        }
        Ok(MessageParam { content: blocks, role: self.role.clone() })
    }

    /// The same message in the OpenAI format. Only text parts can be converted.
    pub fn to_openai_message(&self) -> (r: Result<ChatMessage, TypeError>)
        ensures
            !all_text_parts(self.parts@) ==> (r matches Err(TypeError::UnsupportedConversion(m))
                && m@ == "Only text parts are currently supported for conversion"@),
            all_text_parts(self.parts@) && self.parts@.len() == 0 ==> (r matches Err(TypeError::UnsupportedConversion(m))
                && m@ == "Message contains no text content to convert"@),
            all_text_parts(self.parts@) && self.parts@.len() > 0 ==> (r matches Ok(c) && c.role == self.role
                && c.name is None && c.content@.len() == self.parts@.len() && forall|i: int|
                0 <= i < c.content@.len() ==> plain_text_content(#[trigger] c.content@[i], part_text(self.parts@[i]))),
    {
        let mut parts: Vec<ContentPart> = Vec::new();
        let mut i: usize = 0;
        while i < self.parts.len()
            invariant
                i <= self.parts@.len(),
                parts@.len() == i,
                forall|k: int| 0 <= k < i ==> #[trigger] self.parts@[k].data is Text,
                forall|k: int| 0 <= k < i ==> plain_text_content(#[trigger] parts@[k], part_text(self.parts@[k])),
            decreases self.parts@.len() - i,
        {
            match &self.parts[i].data {
                DataNum::Text(t) => {
                    parts.push(ContentPart::Text(TextContentPart::new(t.clone())));
                },
                _ => {
                    return Err(
                        TypeError::UnsupportedConversion("Only text parts are currently supported for conversion".to_owned()),
                    );
                },
            }
            i = i + 1;
        }
        if parts.len() == 0 {
            return Err(TypeError::UnsupportedConversion("Message contains no text content to convert".to_owned()));
        }
        Ok(ChatMessage { role: self.role.clone(), content: parts, name: None })
    }
}

impl ChatMessage {
    /// The same message in the Anthropic format. Only text parts can be converted.
    pub fn to_anthropic_message(&self) -> (r: Result<MessageParam, TypeError>)
        ensures
            !all_text_content(self.content@) ==> (r matches Err(TypeError::UnsupportedConversion(m))
                && m@ == "Only text content parts are currently supported for conversion"@),
            all_text_content(self.content@) && self.content@.len() == 0 ==> (r matches Err(TypeError::UnsupportedConversion(m))
                && m@ == "Message contains no text content to convert"@),
            all_text_content(self.content@) && self.content@.len() > 0 ==> (r matches Ok(a) && a.role == self.role
                && a.content@.len() == self.content@.len() && forall|i: int| 0 <= i < a.content@.len()
                ==> plain_text_block(#[trigger] a.content@[i], content_text(self.content@[i]))),
    {
        let mut blocks: Vec<ContentBlockParam> = Vec::new();
        let mut i: usize = 0;
        while i < self.content.len()
            invariant
                i <= self.content@.len(),
                blocks@.len() == i,
                forall|k: int| 0 <= k < i ==> #[trigger] self.content@[k] is Text,
                forall|k: int| 0 <= k < i ==> plain_text_block(#[trigger] blocks@[k], content_text(self.content@[k])),
            decreases self.content@.len() - i,
        {
            match &self.content[i] {
                ContentPart::Text(t) => {
                    blocks.push(ContentBlockParam { inner: ContentBlock::Text(TextBlockParam::new_rs(t.text.clone(), None, None)) });
                },
                _ => {
                    return Err(
                        TypeError::UnsupportedConversion(
                            "Only text content parts are currently supported for conversion".to_owned(),
                        ),
                    );
                },
            }
            i = i + 1;
        }
        if blocks.len() == 0 {
            return Err(TypeError::UnsupportedConversion("Message contains no text content to convert".to_owned()));
        }
        Ok(MessageParam { content: blocks, role: self.role.clone() })
    }

    /// The same message in the Gemini format. Only text parts can be converted.
    pub fn to_google_message(&self) -> (r: Result<GeminiContent, TypeError>)
        ensures
            !all_text_content(self.content@) ==> (r matches Err(TypeError::UnsupportedConversion(m))
                && m@ == "Only text content parts are currently supported for conversion"@),
            all_text_content(self.content@) && self.content@.len() == 0 ==> (r matches Err(TypeError::UnsupportedConversion(m))
                && m@ == "Message contains no text content to convert"@),
            all_text_content(self.content@) && self.content@.len() > 0 ==> (r matches Ok(g) && g.role == self.role
                && g.parts@.len() == self.content@.len() && forall|i: int| 0 <= i < g.parts@.len()
                ==> plain_text_part(#[trigger] g.parts@[i], content_text(self.content@[i]))),
    {
        let mut parts: Vec<Part> = Vec::new();
        let mut i: usize = 0;
        while i < self.content.len()
            invariant
                i <= self.content@.len(),
                parts@.len() == i,
                forall|k: int| 0 <= k < i ==> #[trigger] self.content@[k] is Text,
                forall|k: int| 0 <= k < i ==> plain_text_part(#[trigger] parts@[k], content_text(self.content@[k])),
            decreases self.content@.len() - i,
        {
            match &self.content[i] {
                ContentPart::Text(t) => {
                    parts.push(Part::from_text(t.text.clone()));
                },
                _ => {
                    return Err(
                        TypeError::UnsupportedConversion(
                            "Only text content parts are currently supported for conversion".to_owned(),
                        ),
                    );
                },
            }
            i = i + 1;
        }
        if parts.len() == 0 {
            return Err(TypeError::UnsupportedConversion("Message contains no text content to convert".to_owned()));
        }
        Ok(GeminiContent { role: self.role.clone(), parts })
    }
}

/// The request format that a message belongs to.
#[derive(Debug, Clone, Copy, PartialEq, Eq, Structural)]
pub enum RequestType {
    OpenAIChatV1,
    AnthropicMessageV1,
    GeminiContentV1,
}

/// A message in the format of one provider.
#[derive(Debug, PartialEq)]
pub enum MessageNum {
    OpenAIMessageV1(ChatMessage),
    AnthropicMessageV1(MessageParam),
    GeminiContentV1(GeminiContent),
    AnthropicSystemMessageV1(TextBlockParam),
    RawV1(Json),
}

/// Two messages hold the same values.
pub open spec fn same_num(a: MessageNum, b: MessageNum) -> bool {
    match (a, b) {
        (MessageNum::OpenAIMessageV1(x), MessageNum::OpenAIMessageV1(y)) => x.role == y.role && x.name == y.name
            && x.content@ == y.content@,
        (MessageNum::AnthropicMessageV1(x), MessageNum::AnthropicMessageV1(y)) => same_message(x, y),
        (MessageNum::GeminiContentV1(x), MessageNum::GeminiContentV1(y)) => same_content(x, y),
        (MessageNum::AnthropicSystemMessageV1(x), MessageNum::AnthropicSystemMessageV1(y)) => x == y,
        (MessageNum::RawV1(x), MessageNum::RawV1(y)) => x.view() == y.view(),
        _ => false,
    }
}

/// The request format of a message.
pub open spec fn request_type_of(m: MessageNum) -> RequestType {
    match m {
        MessageNum::OpenAIMessageV1(_) => RequestType::OpenAIChatV1,
        MessageNum::AnthropicMessageV1(_) => RequestType::AnthropicMessageV1,
        MessageNum::GeminiContentV1(_) => RequestType::GeminiContentV1,
        MessageNum::AnthropicSystemMessageV1(_) => RequestType::AnthropicMessageV1,
        MessageNum::RawV1(_) => RequestType::OpenAIChatV1,
    }
}

/// Whether a message is already in the format of a provider.
pub open spec fn matches_provider_spec(m: MessageNum, p: Provider) -> bool {
    match (m, p) {
        (MessageNum::OpenAIMessageV1(_), Provider::OpenAI) => true,
        (MessageNum::AnthropicMessageV1(_), Provider::Anthropic) => true,
        (MessageNum::AnthropicSystemMessageV1(_), Provider::Anthropic) => true,
        (MessageNum::GeminiContentV1(_), Provider::Google) => true,
        (MessageNum::GeminiContentV1(_), Provider::Vertex) => true,
        (MessageNum::GeminiContentV1(_), Provider::Gemini) => true,
        _ => false,
    }
}

/// The role of a message; messages without one count as `system`.
pub open spec fn num_role(m: MessageNum) -> Seq<char> {
    match m {
        MessageNum::OpenAIMessageV1(x) => x.role@,
        MessageNum::AnthropicMessageV1(x) => x.role@,
        MessageNum::GeminiContentV1(x) => x.role@,
        _ => "system"@,
    }
}

/// The texts of a message's text parts, in order, from which its variables are read.
pub open spec fn num_texts(m: MessageNum) -> Seq<Seq<char>> {
    match m {
        MessageNum::OpenAIMessageV1(x) => part_texts(x.content@),
        MessageNum::AnthropicMessageV1(x) => block_texts(x.content@),
        MessageNum::GeminiContentV1(x) => gemini_texts(x.parts@),
        _ => Seq::empty(),
    }
}

/// The number of parts or blocks of a message in one of the three conversation formats.
pub open spec fn num_len(m: MessageNum) -> int {
    match m {
        MessageNum::OpenAIMessageV1(x) => x.content@.len() as int,
        MessageNum::AnthropicMessageV1(x) => x.content@.len() as int,
        MessageNum::GeminiContentV1(x) => x.parts@.len() as int,
        _ => 0,
    }
}

/// Whether every part or block of a message is text.
pub open spec fn num_all_text(m: MessageNum) -> bool {
    match m {
        MessageNum::OpenAIMessageV1(x) => all_text_content(x.content@),
        MessageNum::AnthropicMessageV1(x) => all_text_blocks(x.content@),
        MessageNum::GeminiContentV1(x) => all_text_parts(x.parts@),
        _ => false,
    }
}

/// The text of the part or block of a message at `i`.
pub open spec fn num_text_at(m: MessageNum, i: int) -> Seq<char> {
    match m {
        MessageNum::OpenAIMessageV1(x) => content_text(x.content@[i]),
        MessageNum::AnthropicMessageV1(x) => block_text(x.content@[i]),
        MessageNum::GeminiContentV1(x) => part_text(x.parts@[i]),
        _ => Seq::empty(),
    }
}

/// Every part or block of a message is a plain text part of its format.
pub open spec fn num_plain_text(m: MessageNum) -> bool {
    match m {
        MessageNum::OpenAIMessageV1(x) => x.name is None && forall|i: int| 0 <= i < x.content@.len()
            ==> plain_text_content(#[trigger] x.content@[i], content_text(x.content@[i])),
        MessageNum::AnthropicMessageV1(x) => forall|i: int| 0 <= i < x.content@.len()
            ==> plain_text_block(#[trigger] x.content@[i], block_text(x.content@[i])),
        MessageNum::GeminiContentV1(x) => forall|i: int| 0 <= i < x.parts@.len()
            ==> plain_text_part(#[trigger] x.parts@[i], part_text(x.parts@[i])),
        _ => false,
    }
}

/// Whether a message is in the format of the conversation with that number:
/// one for OpenAI, two for Anthropic, three for Gemini.
pub open spec fn num_format(m: MessageNum) -> int {
    match m {
        MessageNum::OpenAIMessageV1(_) => 1,
        MessageNum::AnthropicMessageV1(_) => 2,
        MessageNum::GeminiContentV1(_) => 3,
        _ => 0,
    }
}

/// The conversation format that a provider takes, by the numbers of `num_format`;
/// zero for a provider that takes none.
pub open spec fn provider_format(p: Provider) -> int {
    match p {
        Provider::OpenAI => 1,
        Provider::Anthropic => 2,
        Provider::Google => 3,
        Provider::Vertex => 3,
        Provider::Gemini => 3,
        Provider::Undefined => 0,
    }
}

/// A message can be converted to a provider's format: it is a conversation
/// message of another format that holds text only, and at least one part.
pub open spec fn convertible(m: MessageNum, p: Provider) -> bool {
    provider_format(p) != 0 && num_format(m) != 0 && num_format(m) != provider_format(p) && num_all_text(m)
        && num_len(m) > 0
}

/// `b` is `a` converted to the format of `p`: the same role and the same texts,
/// in order, as plain text parts.
pub open spec fn converted(a: MessageNum, b: MessageNum, p: Provider) -> bool {
    num_format(b) == provider_format(p) && num_role(b) == num_role(a) && num_len(b) == num_len(a)
        && num_plain_text(b) && forall|i: int| 0 <= i < num_len(a) ==> #[trigger] num_text_at(b, i) == num_text_at(a, i)
}

/// The error that converting a message to a provider's format gives.
pub open spec fn conversion_error(m: MessageNum, p: Provider, e: TypeError) -> bool {
    if provider_format(p) == 0 {
        e == TypeError::UnsupportedProviderError
    } else if num_format(m) == 0 || num_format(m) == provider_format(p) {
        e == TypeError::CantConvertSelf
    } else if !num_all_text(m) {
        e matches TypeError::UnsupportedConversion(x) && x@ == (match m {
            MessageNum::OpenAIMessageV1(_) => "Only text content parts are currently supported for conversion"@,
            MessageNum::AnthropicMessageV1(_) => "Only text content blocks are currently supported for conversion"@,
            _ => "Only text parts are currently supported for conversion"@,
        })
    } else {
        e matches TypeError::UnsupportedConversion(x) && x@ == "Message contains no text content to convert"@
    }
}

/// Whether the message is from the user.
pub open spec fn is_user_message_spec(m: MessageNum) -> bool {
    match m {
        MessageNum::OpenAIMessageV1(x) => x.role@ == "user"@,
        MessageNum::AnthropicMessageV1(x) => x.role@ == "user"@,
        MessageNum::GeminiContentV1(x) => x.role@ == "user"@,
        _ => false,
    }
}

/// A message is a user message exactly when it is a conversation message,
/// of any of the three formats, whose role is `user`.
pub proof fn lemma_user_message_by_role(m: MessageNum)
    ensures
        is_user_message_spec(m) <==> (num_format(m) != 0 && num_role(m) == "user"@),
{
}

/// Binding a request's messages binds every user message, of any provider
/// format, and leaves every other message as it is.
pub proof fn lemma_binding_reaches_user_messages(a: MessageNum, b: MessageNum, name: Seq<char>, value: Seq<char>)
    requires
        crate::request::bound_or_same(a, b, name, value),
    ensures
        num_format(a) != 0 && num_role(a) == "user"@ ==> bound_num(a, b, name, value),
        !(num_format(a) != 0 && num_role(a) == "user"@) ==> b == a,
{
}

/// Whether the message gives instructions to the model rather than asking.
pub open spec fn is_system_message_spec(m: MessageNum) -> bool {
    match m {
        MessageNum::OpenAIMessageV1(x) => x.role@ == "developer"@ || x.role@ == "system"@,
        MessageNum::AnthropicMessageV1(x) => x.role@ == "assistant"@,
        MessageNum::GeminiContentV1(x) => x.role@ == "model"@,
        MessageNum::AnthropicSystemMessageV1(_) => true,
        MessageNum::RawV1(_) => false,
    }
}

/// `b` is the message `a` with `${name}` bound to `value`.
pub open spec fn bound_num(a: MessageNum, b: MessageNum, name: Seq<char>, value: Seq<char>) -> bool {
    match (a, b) {
        (MessageNum::OpenAIMessageV1(x), MessageNum::OpenAIMessageV1(y)) => bound_chat_message(x, y, name, value),
        (MessageNum::AnthropicMessageV1(x), MessageNum::AnthropicMessageV1(y)) => bound_message(x, y, name, value),
        (MessageNum::GeminiContentV1(x), MessageNum::GeminiContentV1(y)) => bound_content(x, y, name, value),
        (MessageNum::OpenAIMessageV1(_), _) => false,
        (MessageNum::AnthropicMessageV1(_), _) => false,
        (MessageNum::GeminiContentV1(_), _) => false,
        _ => same_num(a, b),
    }
}

proof fn lemma_converted_openai(a: MessageNum, c: ChatMessage, p: Provider)
    requires
        provider_format(p) == 1,
        num_format(a) == 2 || num_format(a) == 3,
        num_role(a) == c.role@,
        num_len(a) == c.content@.len(),
        c.name is None,
        forall|i: int| 0 <= i < c.content@.len() ==> plain_text_content(#[trigger] c.content@[i], num_text_at(a, i)),
    ensures
        converted(a, MessageNum::OpenAIMessageV1(c), p),
{
    let b = MessageNum::OpenAIMessageV1(c);
    assert forall|i: int| 0 <= i < c.content@.len() implies plain_text_content(#[trigger] c.content@[i], content_text(c.content@[i])) by {
        assert(plain_text_content(c.content@[i], num_text_at(a, i)));
    }
    assert forall|i: int| 0 <= i < num_len(a) implies #[trigger] num_text_at(b, i) == num_text_at(a, i) by {
        assert(plain_text_content(c.content@[i], num_text_at(a, i)));
    }
}

proof fn lemma_converted_anthropic(a: MessageNum, m: MessageParam, p: Provider)
    requires
        provider_format(p) == 2,
        num_format(a) == 1 || num_format(a) == 3,
        num_role(a) == m.role@,
        num_len(a) == m.content@.len(),
        forall|i: int| 0 <= i < m.content@.len() ==> plain_text_block(#[trigger] m.content@[i], num_text_at(a, i)),
    ensures
        converted(a, MessageNum::AnthropicMessageV1(m), p),
{
    let b = MessageNum::AnthropicMessageV1(m);
    assert forall|i: int| 0 <= i < m.content@.len() implies plain_text_block(#[trigger] m.content@[i], block_text(m.content@[i])) by {
        assert(plain_text_block(m.content@[i], num_text_at(a, i)));
    }
    assert forall|i: int| 0 <= i < num_len(a) implies #[trigger] num_text_at(b, i) == num_text_at(a, i) by {
        assert(plain_text_block(m.content@[i], num_text_at(a, i)));
    }
}

proof fn lemma_converted_gemini(a: MessageNum, g: GeminiContent, p: Provider)
    requires
        provider_format(p) == 3,
        num_format(a) == 1 || num_format(a) == 2,
        num_role(a) == g.role@,
        num_len(a) == g.parts@.len(),
        forall|i: int| 0 <= i < g.parts@.len() ==> plain_text_part(#[trigger] g.parts@[i], num_text_at(a, i)),
    ensures
        converted(a, MessageNum::GeminiContentV1(g), p),
{
    let b = MessageNum::GeminiContentV1(g);
    assert forall|i: int| 0 <= i < g.parts@.len() implies plain_text_part(#[trigger] g.parts@[i], part_text(g.parts@[i])) by {
        assert(plain_text_part(g.parts@[i], num_text_at(a, i)));
    }
    assert forall|i: int| 0 <= i < num_len(a) implies #[trigger] num_text_at(b, i) == num_text_at(a, i) by {
        assert(plain_text_part(g.parts@[i], num_text_at(a, i)));
    }
}

/// A message whose parts are all plain text holds text only.
proof fn lemma_plain_is_text(m: MessageNum)
    requires
        num_plain_text(m),
    ensures
        num_all_text(m),
{
    match m {
        MessageNum::OpenAIMessageV1(x) => {
            assert forall|i: int| 0 <= i < x.content@.len() implies #[trigger] x.content@[i] is Text by {
                assert(plain_text_content(x.content@[i], content_text(x.content@[i])));
            }
        },
        MessageNum::AnthropicMessageV1(x) => {
            assert forall|i: int| 0 <= i < x.content@.len() implies #[trigger] x.content@[i].inner is Text by {
                assert(plain_text_block(x.content@[i], block_text(x.content@[i])));
            }
        },
        MessageNum::GeminiContentV1(x) => {
            assert forall|i: int| 0 <= i < x.parts@.len() implies #[trigger] x.parts@[i].data is Text by {
                assert(plain_text_part(x.parts@[i], part_text(x.parts@[i])));
            }
        },
        _ => {},
    }
}

/// Converting a message to another provider's format and back gives a message
/// of the first format with the same role and the same texts, in order: the
/// converted message can always be converted back.
pub proof fn lemma_conversion_round_trip(a: MessageNum, b: MessageNum, c: MessageNum, p: Provider, q: Provider)
    requires
        convertible(a, p),
        converted(a, b, p),
        provider_format(q) == num_format(a),
        converted(b, c, q),
    ensures
        convertible(b, q),
        num_format(c) == num_format(a),
        num_role(c) == num_role(a),
        num_len(c) == num_len(a),
        forall|i: int| 0 <= i < num_len(a) ==> #[trigger] num_text_at(c, i) == num_text_at(a, i),
{
    lemma_plain_is_text(b);
    assert forall|i: int| 0 <= i < num_len(a) implies #[trigger] num_text_at(c, i) == num_text_at(a, i) by {
        assert(num_text_at(c, i) == num_text_at(b, i));
        assert(num_text_at(b, i) == num_text_at(a, i));
    }
}

impl MessageNum {
    /// The request format of the message.
    pub fn request_type(&self) -> (r: RequestType)
        ensures
            r == request_type_of(*self),
    {
        match self {
            MessageNum::OpenAIMessageV1(_) => RequestType::OpenAIChatV1,
            MessageNum::AnthropicMessageV1(_) => RequestType::AnthropicMessageV1,
            MessageNum::GeminiContentV1(_) => RequestType::GeminiContentV1,
            MessageNum::AnthropicSystemMessageV1(_) => RequestType::AnthropicMessageV1,
            MessageNum::RawV1(_) => RequestType::OpenAIChatV1,
        }
    }

    /// Whether the message is already in the format of `provider`.
    pub fn matches_provider(&self, provider: &Provider) -> (r: bool)
        ensures
            r == matches_provider_spec(*self, *provider),
    {
        match (self, provider) {
            (MessageNum::OpenAIMessageV1(_), Provider::OpenAI) => true,
            (MessageNum::AnthropicMessageV1(_), Provider::Anthropic) => true,
            (MessageNum::AnthropicSystemMessageV1(_), Provider::Anthropic) => true,
            (MessageNum::GeminiContentV1(_), Provider::Google) => true,
            (MessageNum::GeminiContentV1(_), Provider::Vertex) => true,
            (MessageNum::GeminiContentV1(_), Provider::Gemini) => true,
            _ => false,
        }
    }

    /// The message in the format of `provider`; a message already in that format,
    /// a system or raw message, or a provider without a format cannot be converted.
    pub fn convert_message_to_provider_type(&self, provider: &Provider) -> (r: Result<MessageNum, TypeError>)
        ensures
            convertible(*self, *provider) ==> (r matches Ok(b) && converted(*self, b, *provider)),
            !convertible(*self, *provider) ==> (r matches Err(e) && conversion_error(*self, *provider, e)),
    {
        match provider {
            Provider::OpenAI => match self {
                MessageNum::AnthropicMessageV1(m) => {
                    let c = m.to_openai_message()?;
                    proof {
                        lemma_converted_openai(*self, c, *provider);
                    }
                    Ok(MessageNum::OpenAIMessageV1(c))
                },
                MessageNum::GeminiContentV1(m) => {
                    let c = m.to_openai_message()?;
                    proof {
                        lemma_converted_openai(*self, c, *provider);
                    }
                    Ok(MessageNum::OpenAIMessageV1(c))
                },
                _ => Err(TypeError::CantConvertSelf),
            },
            Provider::Anthropic => match self {
                MessageNum::OpenAIMessageV1(m) => {
                    let c = m.to_anthropic_message()?;
                    proof {
                        lemma_converted_anthropic(*self, c, *provider);
                    }
                    Ok(MessageNum::AnthropicMessageV1(c))
                },
                MessageNum::GeminiContentV1(m) => {
                    let c = m.to_anthropic_message()?;
                    proof {
                        lemma_converted_anthropic(*self, c, *provider);
                    }
                    Ok(MessageNum::AnthropicMessageV1(c))
                },
                _ => Err(TypeError::CantConvertSelf),
            },
            Provider::Google | Provider::Vertex | Provider::Gemini => match self {
                MessageNum::OpenAIMessageV1(m) => {
                    let c = m.to_google_message()?;
                    proof {
                        lemma_converted_gemini(*self, c, *provider);
                    }
                    Ok(MessageNum::GeminiContentV1(c))
                },
                MessageNum::AnthropicMessageV1(m) => {
                    let c = m.to_google_message()?;
                    proof {
                        lemma_converted_gemini(*self, c, *provider);
                    }
                    Ok(MessageNum::GeminiContentV1(c))
                },
                _ => Err(TypeError::CantConvertSelf),
            },
            Provider::Undefined => Err(TypeError::UnsupportedProviderError),
        }
    }

    /// Puts the message into the format of `provider`, unless it is in that
    /// format already; on failure the message is left as it was.
    pub fn convert_message(&mut self, provider: &Provider) -> (r: Result<(), TypeError>)
        ensures
            matches_provider_spec(*old(self), *provider) ==> r is Ok && *final(self) == *old(self),
            !matches_provider_spec(*old(self), *provider) && convertible(*old(self), *provider) ==> r is Ok
                && converted(*old(self), *final(self), *provider),
            !matches_provider_spec(*old(self), *provider) && !convertible(*old(self), *provider) ==> (r matches Err(e)
                && conversion_error(*old(self), *provider, e) && *final(self) == *old(self)),
    {
        if self.matches_provider(provider) {
            return Ok(());
        }
        let converted = self.convert_message_to_provider_type(provider)?;
        *self = converted;
        Ok(())
    }

    /// Turns an Anthropic message of one text block into a system message.
    pub fn anthropic_message_to_system_message(&mut self) -> (r: Result<(), TypeError>)
        ensures
            match *old(self) {
                MessageNum::AnthropicMessageV1(m) => if m.content@.len() == 1 && m.content@[0].inner is Text {
                    r is Ok && (m.content@[0].inner matches ContentBlock::Text(t) && *final(self)
                        == MessageNum::AnthropicSystemMessageV1(t))
                } else {
                    r matches Err(TypeError::InvalidInput(_)) && *final(self) == *old(self)
                },
                _ => (r matches Err(TypeError::Error(e)) && e@ == "Cannot convert non-AnthropicMessageV1 to system message"@)
                    && *final(self) == *old(self),
            },
    {
        let t = match self {
            MessageNum::AnthropicMessageV1(m) => m.to_text_block_param()?,
            _ => {
                return Err(TypeError::Error("Cannot convert non-AnthropicMessageV1 to system message".to_owned()));
            },
        };
        *self = MessageNum::AnthropicSystemMessageV1(t);
        Ok(())
    }

    /// The role of the message; messages without one count as `system`.
    pub fn role(&self) -> (r: &str)
        ensures
            r@ == num_role(*self),
    {
        match self {
            MessageNum::OpenAIMessageV1(m) => m.role.as_str(),
            MessageNum::AnthropicMessageV1(m) => m.role.as_str(),
            MessageNum::GeminiContentV1(m) => m.role.as_str(),
            _ => "system",
        }
    }

    /// A copy of this message.
    pub fn duplicate(&self) -> (r: MessageNum)
        ensures
            same_num(*self, r),
    {
        match self {
            MessageNum::OpenAIMessageV1(m) => MessageNum::OpenAIMessageV1(m.duplicate()),
            MessageNum::AnthropicMessageV1(m) => MessageNum::AnthropicMessageV1(m.duplicate()),
            MessageNum::GeminiContentV1(m) => MessageNum::GeminiContentV1(m.duplicate()),
            MessageNum::AnthropicSystemMessageV1(t) => MessageNum::AnthropicSystemMessageV1(t.duplicate()),
            MessageNum::RawV1(j) => MessageNum::RawV1(j.cloned()),
        }
    }

    /// A copy of the message with `${name}` replaced by `value` in its text.
    pub fn bind(&self, name: &str, value: &str) -> (r: Result<MessageNum, TypeError>)
        ensures
            r matches Ok(b) && bound_num(*self, b, name@, value@),
    {
        match self {
            MessageNum::OpenAIMessageV1(m) => Ok(MessageNum::OpenAIMessageV1(m.bind(name, value)?)),
            MessageNum::AnthropicMessageV1(m) => Ok(MessageNum::AnthropicMessageV1(m.bind(name, value)?)),
            MessageNum::GeminiContentV1(m) => Ok(MessageNum::GeminiContentV1(m.bind(name, value)?)),
            _ => Ok(self.duplicate()),
        }
    }

    /// Replaces `${name}` with `value` in the message's text.
    pub fn bind_mut(&mut self, name: &str, value: &str) -> (r: Result<(), TypeError>)
        ensures
            r is Ok,
            num_format(*old(self)) != 0 ==> bound_num(*old(self), *final(self), name@, value@),
            num_format(*old(self)) == 0 ==> *final(self) == *old(self),
    {
        match self {
            MessageNum::OpenAIMessageV1(m) => m.bind_mut(name, value),
            MessageNum::AnthropicMessageV1(m) => m.bind_mut(name, value),
            MessageNum::GeminiContentV1(m) => m.bind_mut(name, value),
            _ => Ok(()),
        }
    }

    /// The distinct names of the variables `${name}` in the message's text.
    pub fn extract_variables(&self) -> (r: Vec<String>)
        ensures
            sv(r@).no_duplicates(),
            forall|x: Seq<char>| #[trigger] sv(r@).contains(x) <==> vars_of_texts(num_texts(*self)).contains(x),
    {
        match self {
            MessageNum::OpenAIMessageV1(m) => m.extract_variables(),
            MessageNum::AnthropicMessageV1(m) => m.extract_variables(),
            MessageNum::GeminiContentV1(m) => m.extract_variables(),
            _ => {
                let v: Vec<String> = Vec::new();
                proof {
                    assert(sv(v@) =~= Seq::<Seq<char>>::empty());
                    assert forall|x: Seq<char>| !#[trigger] vars_of_texts(Seq::<Seq<char>>::empty()).contains(x) by {}
                }
                v
            },
        }
    }

    /// Whether the message gives instructions to the model rather than asking.
    pub fn is_system_message(&self) -> (r: bool)
        ensures
            r == is_system_message_spec(*self),
    {
        match self {
            MessageNum::OpenAIMessageV1(m) => str_eq(m.role.as_str(), Role::Developer.as_str()) || str_eq(
                m.role.as_str(),
                Role::System.as_str(),
            ),
            MessageNum::AnthropicMessageV1(m) => str_eq(m.role.as_str(), Role::Assistant.as_str()),
            MessageNum::GeminiContentV1(m) => str_eq(m.role.as_str(), Role::Model.as_str()),
            MessageNum::AnthropicSystemMessageV1(_) => true,
            MessageNum::RawV1(_) => false,
        }
    }

    /// Whether the message is from the user.
    pub fn is_user_message(&self) -> (r: bool)
        ensures
            r == is_user_message_spec(*self),
    {
        match self {
            MessageNum::OpenAIMessageV1(m) => str_eq(m.role.as_str(), Role::User.as_str()),
            MessageNum::AnthropicMessageV1(m) => str_eq(m.role.as_str(), Role::User.as_str()),
            MessageNum::GeminiContentV1(m) => str_eq(m.role.as_str(), Role::User.as_str()),
            _ => false,
        }
    }
}

} // verus!
