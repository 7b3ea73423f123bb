use vstd::prelude::*;

use crate::anthropic::request::{
    anthropic_defaults, AnthropicSettings, ContentBlock, ContentBlockParam, MessageParam, TextBlockParam, ToolResultBlockParam,
    ToolResultContentEnum, same_message,
};
use crate::error::TypeError;
use crate::google::request::{DataNum, FunctionResponse, GeminiContent, Part, plain_part, same_content};
use crate::json::{json_render, render_json, Json, JsonV};
use crate::message::{
    is_user_message_spec, request_type_of, same_num, MessageNum, RequestType,
};
use crate::openai::request::ChatMessage;
use crate::settings::{
    empty_gemini_settings, openai_defaults, structured_settings, GeminiSettings, ModelSettings, OpenAIChatSettings,
};
use crate::tools::ToolCall;
use crate::types::Provider;

verus! {

/// A request to an OpenAI chat model: the instructions come first among the messages.
#[derive(Debug, PartialEq)]
pub struct OpenAIChatCompletionRequestV1 {
    pub model: String,
    pub messages: Vec<MessageNum>,
    pub settings: OpenAIChatSettings,
    pub response_format: Option<Json>,
}

/// A request to an Anthropic model: the instructions stand apart from the messages.
#[derive(Debug, PartialEq)]
pub struct AnthropicMessageRequestV1 {
    pub model: String,
    pub messages: Vec<MessageNum>,
    pub system: Vec<MessageNum>,
    pub settings: AnthropicSettings,
    pub output_format: Option<Json>,
}

/// A request to a Gemini model: at most one instruction.
#[derive(Debug, PartialEq)]
pub struct GeminiGenerateContentRequestV1 {
    pub contents: Vec<MessageNum>,
    pub system_instruction: Option<MessageNum>,
    pub settings: GeminiSettings,
}

/// A request in the format of one provider.
#[derive(Debug, PartialEq)]
pub enum ProviderRequest {
    OpenAIV1(OpenAIChatCompletionRequestV1),
    AnthropicV1(AnthropicMessageRequestV1),
    GeminiV1(GeminiGenerateContentRequestV1),
}

/// `b` is a request of the same provider as `a` that differs from it in its
/// messages at most: the model, instructions, settings and schema are the same.
pub open spec fn same_frame(a: ProviderRequest, b: ProviderRequest) -> bool {
    match (a, b) {
        (ProviderRequest::OpenAIV1(x), ProviderRequest::OpenAIV1(y)) => y == (OpenAIChatCompletionRequestV1 {
            messages: y.messages,
            ..x
        }),
        (ProviderRequest::AnthropicV1(x), ProviderRequest::AnthropicV1(y)) => y == (AnthropicMessageRequestV1 {
            messages: y.messages,
            ..x
        }),
        (ProviderRequest::GeminiV1(x), ProviderRequest::GeminiV1(y)) => y == (GeminiGenerateContentRequestV1 {
            contents: y.contents,
            ..x
        }),
        _ => false,
    }
}

/// The messages of a request.
pub open spec fn request_messages(r: ProviderRequest) -> Seq<MessageNum> {
    match r {
        ProviderRequest::OpenAIV1(x) => x.messages@,
        ProviderRequest::AnthropicV1(x) => x.messages@,
        ProviderRequest::GeminiV1(x) => x.contents@,
    }
}

/// The JSON schema that the answer must follow, as the request stores it.
pub open spec fn request_schema(r: ProviderRequest) -> Option<JsonV> {
    match r {
        ProviderRequest::OpenAIV1(x) => match x.response_format {
            Some(j) => Some(j.view()),
            None => None,
        },
        ProviderRequest::AnthropicV1(x) => match x.output_format {
            Some(j) => Some(j.view()),
            None => None,
        },
        ProviderRequest::GeminiV1(x) => match x.settings.generation_config {
            Some(g) => match g.response_json_schema {
                Some(j) => Some(j.view()),
                None => None,
            },
            None => None,
        },
    }
}

/// The output format that an Anthropic request holds for a schema.
pub open spec fn anthropic_output_format(schema: JsonV) -> JsonV {
    JsonV::Object(seq![("schema"@, schema), ("type"@, JsonV::Str("json_schema"@))])
}

/// The output format of an Anthropic request for a JSON schema:
/// `{"schema": schema, "type": "json_schema"}`.
pub fn create_structured_output_schema(json_schema: Json) -> (r: Json)
    ensures
        r.view() == anthropic_output_format(json_schema.view()),
{
    let ghost sv = json_schema.view();
    let k1 = "schema".to_owned();
    let k2 = "type".to_owned();
    let v2 = Json::Str("json_schema".to_owned());
    assert(v2.view() == JsonV::Str("json_schema"@));
    let mut entries: Vec<(String, Json)> = Vec::new();
    entries.push((k1, json_schema));
    entries.push((k2, v2));
    let r = Json::Object(entries);
    proof {
        let o = r.view()->Object_0;
        assert(o.len() == 2);
        assert(o[0] == ("schema"@, sv));
        assert(o[1] == ("type"@, JsonV::Str("json_schema"@)));
        assert(o =~= seq![("schema"@, sv), ("type"@, JsonV::Str("json_schema"@))]);
    }
    r
}

/// The index of the last message from the user, or -1 when there is none.
pub open spec fn last_user_index(msgs: Seq<MessageNum>) -> int
    decreases msgs.len(),
{
    if msgs.len() == 0 {
        -1
    } else if is_user_message_spec(msgs.last()) {
        msgs.len() - 1
    } else {
        last_user_index(msgs.drop_last())
    }
}

proof fn lemma_last_user_index(msgs: Seq<MessageNum>)
    ensures
        -1 <= last_user_index(msgs) < msgs.len(),
        last_user_index(msgs) >= 0 ==> is_user_message_spec(msgs[last_user_index(msgs)]),
    decreases msgs.len(),
{
    if msgs.len() > 0 && !is_user_message_spec(msgs.last()) {
        lemma_last_user_index(msgs.drop_last());
    }
}

/// Finds the last message from the user.
fn find_last_user(msgs: &Vec<MessageNum>) -> (r: Option<usize>)
    ensures
        match r {
            Some(i) => i as int == last_user_index(msgs@),
            None => last_user_index(msgs@) == -1,
        },
{
    let mut i = msgs.len();
    assert(msgs@.take(i as int) =~= msgs@);
    while i > 0
        invariant
            i <= msgs@.len(),
            last_user_index(msgs@) == last_user_index(msgs@.take(i as int)),
        decreases i,
    {
        proof {
            assert(msgs@.take(i as int).drop_last() =~= msgs@.take(i - 1));
            assert(msgs@.take(i as int).last() == msgs@[i - 1]);
        }
        if msgs[i - 1].is_user_message() {
            return Some(i - 1);
        }
        i = i - 1;
    }
    None
}

/// The messages of a request as the model receives them: the instructions
/// first, then the conversation.
pub open spec fn openai_messages(system: Seq<MessageNum>, messages: Seq<MessageNum>) -> Seq<MessageNum> {
    system + messages
}

impl ProviderRequest {
    /// The messages of the request.
    pub fn messages(&self) -> (r: &Vec<MessageNum>)
        ensures
            r@ == request_messages(*self),
    {
        match self {
            ProviderRequest::OpenAIV1(x) => &x.messages,
            ProviderRequest::AnthropicV1(x) => &x.messages,
            ProviderRequest::GeminiV1(x) => &x.contents,
        }
    }

    /// The instructions of the request: for OpenAI the messages that are
    /// instructions, for Anthropic the system messages, for Gemini the one
    /// instruction if there is one.
    pub fn system_instructions(&self) -> (r: Vec<&MessageNum>)
        ensures
            match *self {
                ProviderRequest::OpenAIV1(x) => r@.len() <= x.messages@.len() && forall|i: int|
                    0 <= i < r@.len() ==> x.messages@.contains(*#[trigger] r@[i]),
                ProviderRequest::AnthropicV1(x) => r@.len() == x.system@.len() && forall|i: int|
                    0 <= i < r@.len() ==> *#[trigger] r@[i] == x.system@[i],
                ProviderRequest::GeminiV1(x) => match x.system_instruction {
                    Some(m) => r@.len() == 1 && *r@[0] == m,
                    None => r@.len() == 0,
                },
            },
    {
        let mut out: Vec<&MessageNum> = Vec::new();
        match self {
            ProviderRequest::OpenAIV1(x) => {
                let mut i: usize = 0;
                while i < x.messages.len()
                    invariant
                        i <= x.messages@.len(),
                        out@.len() <= i,
                        forall|k: int| 0 <= k < out@.len() ==> x.messages@.contains(*#[trigger] out@[k]),
                    decreases x.messages@.len() - i,
                {
                    if x.messages[i].is_system_message() {
                        out.push(&x.messages[i]);
                        proof {
                            assert(x.messages@[i as int] == *out@[out@.len() - 1]);
                        }
                    }
                    i = i + 1;
                }
            },
            ProviderRequest::AnthropicV1(x) => {
                let mut i: usize = 0;
                while i < x.system.len()
                    invariant
                        i <= x.system@.len(),
                        out@.len() == i,
                        forall|k: int| 0 <= k < i ==> *#[trigger] out@[k] == x.system@[k],
                    decreases x.system@.len() - i,
                {
                    out.push(&x.system[i]);
                    i = i + 1;
                }
            },
            ProviderRequest::GeminiV1(x) => {
                match &x.system_instruction {
                    Some(m) => out.push(m),
                    None => {},
                }
            },
        }
        out
    }

    /// Adds a message at position `idx` (the front when none is given).
    pub fn insert_message(&mut self, message: MessageNum, idx: Option<usize>)
        requires
            match idx {
                Some(i) => i <= request_messages(*old(self)).len(),
                None => true,
            },
        ensures
            request_messages(*final(self)) == request_messages(*old(self)).insert(
                match idx {
                    Some(i) => i as int,
                    None => 0,
                },
                message,
            ),
    {
        let i = match idx {
            Some(i) => i,
            None => 0,
        };
        match self {
            ProviderRequest::OpenAIV1(x) => x.messages.insert(i, message),
            ProviderRequest::AnthropicV1(x) => x.messages.insert(i, message),
            ProviderRequest::GeminiV1(x) => x.contents.insert(i, message),
        }
    }

    /// Adds a message at the end.
    pub fn push_message(&mut self, message: MessageNum)
        ensures
            same_frame(*old(self), *final(self)),
            request_messages(*final(self)) == request_messages(*old(self)).push(message),
            request_schema(*final(self)) == request_schema(*old(self)),
            (*final(self) is OpenAIV1) == (*old(self) is OpenAIV1),
            (*final(self) is AnthropicV1) == (*old(self) is AnthropicV1),
            (*final(self) is GeminiV1) == (*old(self) is GeminiV1),
    {
        match self {
            ProviderRequest::OpenAIV1(x) => x.messages.push(message),
            ProviderRequest::AnthropicV1(x) => x.messages.push(message),
            ProviderRequest::GeminiV1(x) => x.contents.push(message),
        }
    }

    /// The JSON schema that the answer must follow, if the request has one.
    pub fn response_json_schema(&self) -> (r: Option<&Json>)
        ensures
            match r {
                Some(j) => request_schema(*self) == Some(j.view()),
                None => request_schema(*self) is None,
            },
    {
        match self {
            ProviderRequest::OpenAIV1(x) => match &x.response_format {
                Some(j) => Some(j),
                None => None,
            },
            ProviderRequest::AnthropicV1(x) => match &x.output_format {
                Some(j) => Some(j),
                None => None,
            },
            ProviderRequest::GeminiV1(x) => match &x.settings.generation_config {
                Some(g) => match &g.response_json_schema {
                    Some(j) => Some(j),
                    None => None,
                },
                None => None,
            },
        }
    }

    /// Whether the request asks for an answer that follows a schema.
    pub fn has_structured_output(&self) -> (r: bool)
        ensures
            r == request_schema(*self) is Some,
    {
        self.response_json_schema().is_some()
    }

    /// Whether the request is in the format of `provider`.
    pub fn match_provider(&self, provider: &Provider) -> (r: bool)
        ensures
            r == match *self {
                ProviderRequest::OpenAIV1(_) => *provider == Provider::OpenAI,
                ProviderRequest::AnthropicV1(_) => *provider == Provider::Anthropic,
                ProviderRequest::GeminiV1(_) => *provider == Provider::Gemini || *provider == Provider::Google
                    || *provider == Provider::Vertex,
            },
    {
        match self {
            ProviderRequest::OpenAIV1(_) => match provider {
                Provider::OpenAI => true,
                _ => false,
            },
            ProviderRequest::AnthropicV1(_) => match provider {
                Provider::Anthropic => true,
                _ => false,
            },
            ProviderRequest::GeminiV1(_) => match provider {
                Provider::Gemini | Provider::Google | Provider::Vertex => true,
                _ => false,
            },
        }
    }

    /// Sets the JSON schema that the answer must follow. For Anthropic the
    /// schema is wrapped as an output format; for Gemini it is set only where
    /// the request already has generation settings.
    pub fn set_response_json_schema(&mut self, response_json_schema: Option<Json>)
        ensures
            request_messages(*final(self)) == request_messages(*old(self)),
            match *old(self) {
                ProviderRequest::OpenAIV1(_) => request_schema(*final(self)) == match response_json_schema {
                    Some(j) => Some(j.view()),
                    None => None::<JsonV>,
                },
                ProviderRequest::AnthropicV1(_) => request_schema(*final(self)) == match response_json_schema {
                    Some(j) => Some(anthropic_output_format(j.view())),
                    None => None::<JsonV>,
                },
                ProviderRequest::GeminiV1(x) => match x.settings.generation_config {
                    Some(_) => request_schema(*final(self)) == match response_json_schema {
                        Some(j) => Some(j.view()),
                        None => None::<JsonV>,
                    } && ((*final(self)) matches ProviderRequest::GeminiV1(y) && (y.settings.generation_config matches Some(g) && (g.response_mime_type matches Some(m) && m@ == "application/json"@))),
                    None => *final(self) == *old(self),
                },
            },
    {
        match self {
            ProviderRequest::OpenAIV1(x) => {
                x.response_format = response_json_schema;
            },
            ProviderRequest::AnthropicV1(x) => {
                x.output_format = match response_json_schema {
                    Some(j) => Some(create_structured_output_schema(j)),
                    None => None,
                };
            },
            ProviderRequest::GeminiV1(x) => {
                match &mut x.settings.generation_config {
                    Some(g) => {
                        g.response_mime_type = Some("application/json".to_owned());
                        g.response_json_schema = response_json_schema;
                    },
                    None => {},
                }
            },
        }
    }

    /// Puts instructions before the ones the request has. A Gemini request takes
    /// at most one, which replaces the one it has.
    pub fn prepend_system_instructions(&mut self, instructions: Vec<MessageNum>) -> (r: Result<(), TypeError>)
        ensures
            request_messages(*final(self)) == match *old(self) {
                ProviderRequest::OpenAIV1(x) => instructions@ + x.messages@,
                _ => request_messages(*old(self)),
            },
            match *old(self) {
                ProviderRequest::OpenAIV1(_) => r is Ok,
                ProviderRequest::AnthropicV1(x) => r is Ok && ((*final(self)) matches ProviderRequest::AnthropicV1(y) && y.system@
                    == instructions@ + x.system@),
                ProviderRequest::GeminiV1(x) => if instructions@.len() > 1 {
                    (r matches Err(TypeError::Error(m)) && m@ == "Gemini only supports a single system instruction"@)
                        && *final(self) == *old(self)
                } else {
                    r is Ok && ((*final(self)) matches ProviderRequest::GeminiV1(y) && y.system_instruction == if instructions@.len()
                        == 1 {
                        Some(instructions@[0])
                    } else {
                        x.system_instruction
                    })
                },
            },
    {
        match self {
            ProviderRequest::OpenAIV1(x) => {
                let mut combined = instructions;
                let ghost c0 = combined@;
                let ghost m0 = x.messages@;
                combined.append(&mut x.messages);
                x.messages = combined;
                proof {
                    assert(x.messages@ =~= c0 + m0);
                }
                Ok(())
            },
            ProviderRequest::AnthropicV1(x) => {
                let mut combined = instructions;
                combined.append(&mut x.system);
                x.system = combined;
                Ok(())
            },
            ProviderRequest::GeminiV1(x) => {
                if instructions.len() > 1 {
                    return Err(TypeError::Error("Gemini only supports a single system instruction".to_owned()));
                }
                let mut instructions = instructions;
                if instructions.len() == 1 {
                    let first = instructions.remove(0);
                    x.system_instruction = Some(first);
                }
                Ok(())
            },
        }
    }

    /// A copy of the last message from the user, which must be an OpenAI message.
    pub fn get_openai_message(&self) -> (r: Result<ChatMessage, TypeError>)
        ensures
            last_user_index(request_messages(*self)) == -1 ==> (r matches Err(TypeError::Error(m)) && m@
                == "No messages in request to convert to Python object"@),
            last_user_index(request_messages(*self)) >= 0 ==> match request_messages(*self)[last_user_index(request_messages(*self))] {
                MessageNum::OpenAIMessageV1(c) => r matches Ok(d) && d.role == c.role && d.name == c.name && d.content@ == c.content@,
                _ => r matches Err(TypeError::Error(m)) && m@ == "Last message is not an OpenAI ChatMessage"@,
            },
    {
        let msgs = self.messages();
        match find_last_user(msgs) {
            None => Err(TypeError::Error("No messages in request to convert to Python object".to_owned())),
            Some(i) => {
                proof {
                    lemma_last_user_index(msgs@);
                }
                match &msgs[i] {
                    MessageNum::OpenAIMessageV1(c) => Ok(c.duplicate()),
                    _ => Err(TypeError::Error("Last message is not an OpenAI ChatMessage".to_owned())),
                }
            },
        }
    }

    /// A copy of the last message from the user, which must be a Gemini message.
    pub fn get_gemini_message(&self) -> (r: Result<GeminiContent, TypeError>)
        ensures
            last_user_index(request_messages(*self)) == -1 ==> (r matches Err(TypeError::Error(m)) && m@
                == "No messages in request to convert to Python object"@),
            last_user_index(request_messages(*self)) >= 0 ==> match request_messages(*self)[last_user_index(request_messages(*self))] {
                MessageNum::GeminiContentV1(c) => r matches Ok(d) && same_content(c, d),
                _ => r matches Err(TypeError::Error(m)) && m@ == "Last message is not a GeminiContent"@,
            },
    {
        let msgs = self.messages();
        match find_last_user(msgs) {
            None => Err(TypeError::Error("No messages in request to convert to Python object".to_owned())),
            Some(i) => {
                proof {
                    lemma_last_user_index(msgs@);
                }
                match &msgs[i] {
                    MessageNum::GeminiContentV1(c) => Ok(c.duplicate()),
                    _ => Err(TypeError::Error("Last message is not a GeminiContent".to_owned())),
                }
            },
        }
    }

    /// A copy of the last message from the user, which must be an Anthropic message.
    pub fn get_anthropic_message(&self) -> (r: Result<MessageParam, TypeError>)
        ensures
            last_user_index(request_messages(*self)) == -1 ==> (r matches Err(TypeError::Error(m)) && m@
                == "No messages in request to convert to Python object"@),
            last_user_index(request_messages(*self)) >= 0 ==> match request_messages(*self)[last_user_index(request_messages(*self))] {
                MessageNum::AnthropicMessageV1(c) => r matches Ok(d) && same_message(c, d),
                _ => r matches Err(TypeError::Error(m)) && m@ == "Last message is not an Anthropic MessageParam"@,
            },
    {
        let msgs = self.messages();
        match find_last_user(msgs) {
            None => Err(TypeError::Error("No messages in request to convert to Python object".to_owned())),
            Some(i) => {
                proof {
                    lemma_last_user_index(msgs@);
                }
                match &msgs[i] {
                    MessageNum::AnthropicMessageV1(c) => Ok(c.duplicate()),
                    _ => Err(TypeError::Error("Last message is not an Anthropic MessageParam".to_owned())),
                }
            },
        }
    }
}

/// All messages are of the request format of the first.
pub open spec fn same_request_type(msgs: Seq<MessageNum>) -> bool {
    forall|i: int| 0 <= i < msgs.len() ==> request_type_of(#[trigger] msgs[i]) == request_type_of(msgs[0])
}

/// The OpenAI settings that a request built from `s` holds.
pub open spec fn openai_settings_from(s: ModelSettings, t: OpenAIChatSettings) -> bool {
    match s {
        ModelSettings::OpenAIChat(x) => t == x,
        _ => openai_defaults(t),
    }
}

/// The Anthropic settings that a request built from `s` holds: those of `s`, or
/// the defaults when `s` is of another provider.
pub open spec fn anthropic_settings_from(s: ModelSettings, t: AnthropicSettings) -> bool {
    match s {
        ModelSettings::AnthropicChat(x) => t == x,
        _ => t == anthropic_defaults(),
    }
}

/// The Gemini settings that a request built from `s` with the schema `schema`
/// holds: those of `s` (none set when `s` is of another provider), asked for JSON
/// that follows the schema when there is one.
pub open spec fn gemini_settings_from(s: ModelSettings, schema: Option<Json>, t: GeminiSettings) -> bool {
    let base = match s {
        ModelSettings::GoogleChat(x) => x,
        _ => empty_gemini_settings(),
    };
    match schema {
        None => t == base,
        Some(j) => structured_settings(base, t, j),
    }
}

/// `r` is the request built from the messages, instructions, model, settings and
/// schema, in the format of the first message.
pub open spec fn built_request(
    messages: Seq<MessageNum>,
    system: Seq<MessageNum>,
    model: String,
    settings: ModelSettings,
    schema: Option<Json>,
    r: ProviderRequest,
) -> bool {
    match request_type_of(messages[0]) {
        RequestType::OpenAIChatV1 => r matches ProviderRequest::OpenAIV1(q) && q.model == model && q.messages@ == system
            + messages && openai_settings_from(settings, q.settings) && q.response_format == schema,
        RequestType::AnthropicMessageV1 => r matches ProviderRequest::AnthropicV1(q) && q.model == model && q.messages@
            == messages && q.system@ == system && anthropic_settings_from(settings, q.settings) && match schema {
            None => q.output_format is None,
            Some(j) => q.output_format matches Some(o) && o.view() == anthropic_output_format(j.view()),
        },
        RequestType::GeminiContentV1 => r matches ProviderRequest::GeminiV1(q) && q.contents@ == messages
            && q.system_instruction == (if system.len() == 1 {
            Some(system[0])
        } else {
            None::<MessageNum>
        }) && gemini_settings_from(settings, schema, q.settings),
    }
}

/// Builds the request for a provider from a prompt's messages. The first
/// message decides the format, and every message must be of that format; a
/// Gemini request takes at most one instruction.
pub fn to_provider_request(
    messages: Vec<MessageNum>,
    system_instructions: Vec<MessageNum>,
    model: String,
    model_settings: ModelSettings,
    response_json_schema: Option<Json>,
) -> (r: Result<ProviderRequest, TypeError>)
    ensures
        messages@.len() == 0 ==> (r matches Err(TypeError::Error(m)) && m@ == "Prompt has no messages"@),
        messages@.len() > 0 && !same_request_type(messages@) ==> (r matches Err(TypeError::Error(m)) && m@
            == "All messages must be of the same provider type"@),
        messages@.len() > 0 && same_request_type(messages@) && request_type_of(messages@[0]) == RequestType::GeminiContentV1
            && system_instructions@.len() > 1 ==> r == Err::<ProviderRequest, TypeError>(TypeError::MoreThanOneSystemInstruction),
        messages@.len() > 0 && same_request_type(messages@) && !(request_type_of(messages@[0]) == RequestType::GeminiContentV1
            && system_instructions@.len() > 1) ==> (r matches Ok(q) && built_request(
            messages@,
            system_instructions@,
            model,
            model_settings,
            response_json_schema,
            q,
        )),
{
    if messages.len() == 0 {
        return Err(TypeError::Error("Prompt has no messages".to_owned()));
    }
    let request_type = messages[0].request_type();
    let mut i: usize = 0;
    while i < messages.len()
        invariant
            i <= messages@.len(),
            messages@.len() > 0,
            request_type == request_type_of(messages@[0]),
            forall|k: int| 0 <= k < i ==> request_type_of(#[trigger] messages@[k]) == request_type,
        decreases messages@.len() - i,
    {
        if messages[i].request_type() != request_type {
            return Err(TypeError::Error("All messages must be of the same provider type".to_owned()));
        }
        i = i + 1;
    }
    let ghost mv = messages@;
    let ghost sv = system_instructions@;
    match request_type {
        RequestType::OpenAIChatV1 => {
            let settings = match model_settings {
                ModelSettings::OpenAIChat(s) => s,
                _ => OpenAIChatSettings::default_settings(),
            };
            let mut all = system_instructions;
            let mut msgs = messages;
            all.append(&mut msgs);
            proof {
                assert(all@ =~= sv + mv);
            }
            Ok(
                ProviderRequest::OpenAIV1(
                    OpenAIChatCompletionRequestV1 {
                        model,
                        messages: all,
                        settings,
                        response_format: response_json_schema,
                    },
                ),
            )
        },
        RequestType::AnthropicMessageV1 => {
            let settings = match model_settings {
                ModelSettings::AnthropicChat(s) => s,
                _ => AnthropicSettings::default_settings(),
            };
            let output_format = match response_json_schema {
                Some(j) => Some(create_structured_output_schema(j)),
                None => None,
            };
            Ok(
                ProviderRequest::AnthropicV1(
                    AnthropicMessageRequestV1 {
                        model,
                        messages,
                        system: system_instructions,
                        settings,
                        output_format,
                    },
                ),
            )
        },
        RequestType::GeminiContentV1 => {
            if system_instructions.len() > 1 {
                return Err(TypeError::MoreThanOneSystemInstruction);
            }
            let mut system = system_instructions;
            let system_instruction = if system.len() == 1 {
                Some(system.remove(0))
            } else {
                None
            };
            let mut settings = match model_settings {
                ModelSettings::GoogleChat(s) => s,
                _ => GeminiSettings::default_settings(),
            };
            match response_json_schema {
                Some(schema) => settings.configure_for_structured_output(schema),
                None => {},
            }
            Ok(
                ProviderRequest::GeminiV1(
                    GeminiGenerateContentRequestV1 { contents: messages, system_instruction, settings },
                ),
            )
        },
    }
}

/// The identifier under which a tool result answers a call: the call's
/// identifier, or `fallback` when it has none.
pub open spec fn call_id_or(call: ToolCall, fallback: Seq<char>) -> Seq<char> {
    match call.call_id {
        Some(id) => id@,
        None => fallback,
    }
}

/// The message that carries a tool's result back to an OpenAI model:
/// `{"content": result as JSON text, "role": "tool", "tool_call_id": id}`.
pub open spec fn openai_tool_message(call: ToolCall, result: JsonV, m: MessageNum) -> bool {
    m matches MessageNum::RawV1(j) && j.view() == JsonV::Object(
        seq![
            ("content"@, JsonV::Str(json_render(result))),
            ("role"@, JsonV::Str("tool"@)),
            ("tool_call_id"@, JsonV::Str(call_id_or(call, "unknown"@))),
        ],
    )
}

/// The message that carries a tool's result back to an Anthropic model: a user
/// message with one tool result block, whose one text block is the result as JSON text.
pub open spec fn anthropic_tool_message(call: ToolCall, result: JsonV, m: MessageNum) -> bool {
    m matches MessageNum::AnthropicMessageV1(p) && p.role@ == "user"@ && p.content@.len() == 1 && (p.content@[0].inner matches ContentBlock::ToolResult(t)
        && t.tool_use_id@ == call_id_or(call, call.tool_name@) && t.is_error is None && t.cache_control is None
        && t.kind@ == "tool_result"@ && (t.content matches Some(ToolResultContentEnum::Text(v)) && v@.len() == 1
        && v@[0].text@ == json_render(result) && v@[0].cache_control is None && v@[0].citations is None && v@[0].kind@
        == "text"@))
}

/// The message that carries a tool's result back to a Gemini model: a user
/// message with one function response part, `{"output": result}`.
pub open spec fn gemini_tool_message(call: ToolCall, result: JsonV, m: MessageNum) -> bool {
    m matches MessageNum::GeminiContentV1(g) && g.role@ == "user"@ && g.parts@.len() == 1 && plain_part(g.parts@[0]) && (
    g.parts@[0].data matches DataNum::FunctionResponse(f) && f.name == call.tool_name && f.response.view()
        == JsonV::Object(seq![("output"@, result)]))
}

impl ProviderRequest {
    /// Adds to the conversation the result of a tool that the model called, in
    /// the provider's format.
    pub fn add_tool_result(&mut self, call: &ToolCall, result: &Json) -> (r: Result<(), TypeError>)
        ensures
            r is Ok,
            same_frame(*old(self), *final(self)),
            request_messages(*final(self)).len() == request_messages(*old(self)).len() + 1,
            request_messages(*final(self)).drop_last() == request_messages(*old(self)),
            request_schema(*final(self)) == request_schema(*old(self)),
            match *old(self) {
                ProviderRequest::OpenAIV1(_) => (*final(self)) is OpenAIV1 && openai_tool_message(
                    *call,
                    result.view(),
                    request_messages(*final(self)).last(),
                ),
                ProviderRequest::AnthropicV1(_) => (*final(self)) is AnthropicV1 && anthropic_tool_message(
                    *call,
                    result.view(),
                    request_messages(*final(self)).last(),
                ),
                ProviderRequest::GeminiV1(_) => (*final(self)) is GeminiV1 && gemini_tool_message(
                    *call,
                    result.view(),
                    request_messages(*final(self)).last(),
                ),
            },
    {
        let text = render_json(result);
        let message = match self {
            ProviderRequest::OpenAIV1(_) => {
                let call_id = match &call.call_id {
                    Some(id) => id.clone(),
                    None => "unknown".to_owned(),
                };
                let ghost idv = call_id@;
                let c = Json::Str(text);
                let ro = Json::Str("tool".to_owned());
                let id = Json::Str(call_id);
                let k1 = "content".to_owned();
                let k2 = "role".to_owned();
                let k3 = "tool_call_id".to_owned();
                assert(c.view() == JsonV::Str(json_render(result.view())));
                assert(ro.view() == JsonV::Str("tool"@));
                assert(id.view() == JsonV::Str(call_id_or(*call, "unknown"@)));
                let mut entries: Vec<(String, Json)> = Vec::new();
                entries.push((k1, c));
                entries.push((k2, ro));
                entries.push((k3, id));
                let j = Json::Object(entries);
                proof {
                    let o = j.view()->Object_0;
                    assert(o.len() == 3);
                    assert(o[0] == ("content"@, JsonV::Str(json_render(result.view()))));
                    assert(o[1] == ("role"@, JsonV::Str("tool"@)));
                    assert(o[2] == ("tool_call_id"@, JsonV::Str(call_id_or(*call, "unknown"@))));
                    assert(o =~= seq![
                        ("content"@, JsonV::Str(json_render(result.view()))),
                        ("role"@, JsonV::Str("tool"@)),
                        ("tool_call_id"@, JsonV::Str(call_id_or(*call, "unknown"@))),
                    ]);
                }
                MessageNum::RawV1(j)
            },
            ProviderRequest::AnthropicV1(_) => {
                let tool_use_id = match &call.call_id {
                    Some(id) => id.clone(),
                    None => call.tool_name.clone(),
                };
                let block = TextBlockParam::new_rs(text, None, None);
                let mut blocks: Vec<TextBlockParam> = Vec::new();
                blocks.push(block);
                let tool_result = ToolResultBlockParam {
                    tool_use_id,
                    is_error: None,
                    cache_control: None,
                    kind: "tool_result".to_owned(),
                    content: Some(ToolResultContentEnum::Text(blocks)),
                };
                let mut content: Vec<ContentBlockParam> = Vec::new();
                content.push(ContentBlockParam { inner: ContentBlock::ToolResult(tool_result) });
                MessageNum::AnthropicMessageV1(MessageParam { role: "user".to_owned(), content })
            },
            ProviderRequest::GeminiV1(_) => {
                let ghost rv = result.view();
                let out = result.cloned();
                let mut entries: Vec<(String, Json)> = Vec::new();
                entries.push(("output".to_owned(), out));
                let response = Json::Object(entries);
                proof {
                    let o = response.view()->Object_0;
                    assert(o.len() == 1);
                    assert(o[0] == ("output"@, rv));
                    assert(o =~= seq![("output"@, rv)]);
                }
                let part = Part::from_data(DataNum::FunctionResponse(FunctionResponse { name: call.tool_name.clone(), response }));
                let mut parts: Vec<Part> = Vec::new();
                parts.push(part);
                MessageNum::GeminiContentV1(GeminiContent { role: "user".to_owned(), parts })
            },
        };
        let ghost before = request_messages(*self);
        self.push_message(message);
        proof {
            assert(request_messages(*self).drop_last() =~= before);
        }
        Ok(())
    }
}

/// `b` is the message `a` with `${name}` bound to `value`, if it is a user
/// message, and otherwise the same message.
pub open spec fn bound_or_same(a: MessageNum, b: MessageNum, name: Seq<char>, value: Seq<char>) -> bool {
    if crate::message::is_user_message_spec(a) {
        crate::message::bound_num(a, b, name, value)
    } else {
        b == a
    }
}

/// `b` is the list `a` with `${name}` bound to `value` in each message.
pub open spec fn all_bound(a: Seq<MessageNum>, b: Seq<MessageNum>, name: Seq<char>, value: Seq<char>) -> bool {
    &&& b.len() == a.len()
    &&& forall|i: int| 0 <= i < a.len() ==> bound_or_same(#[trigger] a[i], b[i], name, value)
}

/// `b` is the list `a` after binding each pair of `pairs`, name to value, in order.
pub open spec fn bound_through(a: Seq<MessageNum>, b: Seq<MessageNum>, pairs: Seq<(Seq<char>, Seq<char>)>) -> bool
    decreases pairs.len(),
{
    if pairs.len() == 0 {
        b == a
    } else {
        exists|m: Seq<MessageNum>| #[trigger]
            all_bound(a, m, pairs[0].0, pairs[0].1) && bound_through(m, b, pairs.drop_first())
    }
}

/// Binding one more pair after a run of bindings extends the run.
pub proof fn lemma_bound_through_push(
    a: Seq<MessageNum>,
    c: Seq<MessageNum>,
    d: Seq<MessageNum>,
    pairs: Seq<(Seq<char>, Seq<char>)>,
    name: Seq<char>,
    value: Seq<char>,
)
    requires
        bound_through(a, c, pairs),
        all_bound(c, d, name, value),
    ensures
        bound_through(a, d, pairs.push((name, value))),
    decreases pairs.len(),
{
    let longer = pairs.push((name, value));
    if pairs.len() == 0 {
        assert(longer.drop_first() =~= Seq::<(Seq<char>, Seq<char>)>::empty());
        assert(all_bound(a, d, longer[0].0, longer[0].1) && bound_through(d, d, longer.drop_first()));
    } else {
        let m = choose|m: Seq<MessageNum>| #[trigger]
            all_bound(a, m, pairs[0].0, pairs[0].1) && bound_through(m, c, pairs.drop_first());
        lemma_bound_through_push(m, c, d, pairs.drop_first(), name, value);
        assert(longer.drop_first() =~= pairs.drop_first().push((name, value)));
        assert(all_bound(a, m, longer[0].0, longer[0].1) && bound_through(m, d, longer.drop_first()));
    }
}

/// Binds `${name}` to `value` in each user message, in order; the other
/// messages stay as they are.
fn bind_each(msgs: &mut Vec<MessageNum>, name: &str, value: &str)
    ensures
        final(msgs)@.len() == old(msgs)@.len(),
        forall|i: int| 0 <= i < old(msgs)@.len() ==> bound_or_same(#[trigger] old(msgs)@[i], final(msgs)@[i], name@, value@),
{
    let ghost o = msgs@;
    let mut rest: Vec<MessageNum> = Vec::new();
    rest.append(msgs);
    let ghost n = o.len();
    while rest.len() > 0
        invariant
            rest@ == o.skip(n - rest@.len()),
            n == o.len(),
            rest@.len() <= n,
            msgs@.len() == n - rest@.len(),
            forall|i: int| 0 <= i < n - rest@.len() ==> bound_or_same(#[trigger] o[i], msgs@[i], name@, value@),
        decreases rest@.len(),
    {
        let ghost k = n - rest@.len();
        let mut m = rest.remove(0);
        assert(m == o[k]);
        if m.is_user_message() {
            let _ = m.bind_mut(name, value);
        }
        msgs.push(m);
    }
}

impl ProviderRequest {
    /// Binds `${name}` to `value` in every user message of the request; the
    /// other messages and the rest of the request stay as they are.
    pub fn bind_messages(&mut self, name: &str, value: &str)
        ensures
            same_frame(*old(self), *final(self)),
            request_messages(*final(self)).len() == request_messages(*old(self)).len(),
            forall|i: int| 0 <= i < request_messages(*old(self)).len() ==> bound_or_same(
                #[trigger] request_messages(*old(self))[i],
                request_messages(*final(self))[i],
                name@,
                value@,
            ),
            request_schema(*final(self)) == request_schema(*old(self)),
    {
        match self {
            ProviderRequest::OpenAIV1(x) => bind_each(&mut x.messages, name, value),
            ProviderRequest::AnthropicV1(x) => bind_each(&mut x.messages, name, value),
            ProviderRequest::GeminiV1(x) => bind_each(&mut x.contents, name, value),
        }
    }
}

} // verus!
