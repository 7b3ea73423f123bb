use vstd::prelude::*;

use crate::error::TypeError;
use crate::json::Json;
use crate::anthropic::request::{ContentBlock, MessageParam};
use crate::google::request::GeminiContent;
use crate::message::{
    num_all_text, num_format, num_len, num_plain_text, num_role, num_text_at, num_texts, provider_format, MessageNum,
};
use crate::openai::request::ChatMessage;
use crate::request::{
    bound_or_same, bound_through, same_frame, built_request, lemma_bound_through_push, request_messages, same_request_type, to_provider_request, ProviderRequest,
};
use crate::settings::{settings_fit, ModelSettings};
use crate::message::{request_type_of, RequestType};
use crate::template::{extend_unique, vars_of_texts};
use crate::text::concat;
use crate::types::{provider_name, role_name, Provider, Role};
use crate::workflow::tasklist::sv;

verus! {

/// The version of the library that built a prompt.
pub const VERSION: &'static str = "0.1.0";

/// The kind of structured answer that a prompt asks for.
#[derive(Debug, Clone, Copy, PartialEq, Eq, Structural)]
pub enum ResponseType {
    Score,
    Pydantic,
    Null,
}

/// A prompt: the request for a provider, with the model, the provider and the
/// names of the variables that its messages hold.
#[derive(Debug, PartialEq)]
pub struct Prompt {
    pub request: ProviderRequest,
    pub model: String,
    pub provider: Provider,
    pub version: String,
    pub parameters: Vec<String>,
    pub response_type: ResponseType,
}

/// The variables named in any of the messages.
pub open spec fn messages_vars(msgs: Seq<MessageNum>) -> Set<Seq<char>> {
    Set::new(|x: Seq<char>| exists|i: int| 0 <= i < msgs.len() && #[trigger] vars_of_texts(num_texts(msgs[i])).contains(x))
}

/// Adds the variables of the messages to `acc`, each once.
fn collect_variables(acc: &mut Vec<String>, msgs: &Vec<MessageNum>)
    requires
        sv(old(acc)@).no_duplicates(),
    ensures
        sv(final(acc)@).no_duplicates(),
        forall|x: Seq<char>| #[trigger] sv(final(acc)@).contains(x) <==> (sv(old(acc)@).contains(x)
            || messages_vars(msgs@).contains(x)),
{
    let mut i: usize = 0;
    while i < msgs.len()
        invariant
            i <= msgs@.len(),
            sv(acc@).no_duplicates(),
            forall|x: Seq<char>| #[trigger] sv(acc@).contains(x) <==> (sv(old(acc)@).contains(x) || messages_vars(
                msgs@.take(i as int),
            ).contains(x)),
        decreases msgs@.len() - i,
    {
        let vars = msgs[i].extract_variables();
        let ghost a0 = sv(acc@);
        extend_unique(acc, &vars);
        proof {
            assert forall|x: Seq<char>| #[trigger] sv(acc@).contains(x) <==> (sv(old(acc)@).contains(x) || messages_vars(
                msgs@.take(i + 1),
            ).contains(x)) by {
                let t0 = msgs@.take(i as int);
                let t1 = msgs@.take(i + 1);
                if messages_vars(t1).contains(x) {
                    let j = choose|j: int| 0 <= j < t1.len() && #[trigger] vars_of_texts(num_texts(t1[j])).contains(x);
                    if j < i {
                        assert(t0[j] == t1[j]);
                        assert(messages_vars(t0).contains(x));
                    } else {
                        assert(t1[j] == msgs@[i as int]);
                        assert(sv(vars@).contains(x));
                    }
                }
                if messages_vars(t0).contains(x) {
                    let j = choose|j: int| 0 <= j < t0.len() && #[trigger] vars_of_texts(num_texts(t0[j])).contains(x);
                    assert(t0[j] == t1[j]);
                    assert(messages_vars(t1).contains(x));
                }
                if sv(vars@).contains(x) {
                    assert(t1[i as int] == msgs@[i as int]);
                    assert(messages_vars(t1).contains(x));
                }
            }
        }
        i = i + 1;
    }
    proof {
        assert(msgs@.take(i as int) =~= msgs@);
    }
}

impl Prompt {
    /// The distinct names of the variables in the instructions and messages.
    pub fn extract_variables(messages: &Vec<MessageNum>, system_instructions: &Vec<MessageNum>) -> (r: Vec<String>)
        ensures
            sv(r@).no_duplicates(),
            forall|x: Seq<char>| #[trigger] sv(r@).contains(x) <==> (messages_vars(system_instructions@).contains(x)
                || messages_vars(messages@).contains(x)),
    {
        let mut acc: Vec<String> = Vec::new();
        proof {
            assert(sv(acc@) =~= Seq::<Seq<char>>::empty());
        }
        collect_variables(&mut acc, system_instructions);
        collect_variables(&mut acc, messages);
        acc
    }

    /// A prompt built from its messages and instructions. Settings that do not
    /// fit the provider are refused; without settings the provider's default
    /// settings are used. The request is built as `to_provider_request` builds it.
    pub fn new_rs(
        messages: Vec<MessageNum>,
        model: &str,
        provider: Provider,
        system_instructions: Vec<MessageNum>,
        model_settings: Option<ModelSettings>,
        response_json_schema: Option<Json>,
        response_type: ResponseType,
    ) -> (r: Result<Prompt, TypeError>)
        ensures
            (model_settings matches Some(s) && !settings_fit(s, provider)) ==> r == Err::<Prompt, TypeError>(
                TypeError::InvalidModelSettings,
            ),
            !(model_settings matches Some(s) && !settings_fit(s, provider)) ==> {
                &&& messages@.len() == 0 ==> (r matches Err(TypeError::Error(m)) && m@ == "Prompt has no messages"@)
                &&& messages@.len() > 0 && !same_request_type(messages@) ==> (r matches Err(TypeError::Error(m)) && m@
                    == "All messages must be of the same provider type"@)
                &&& messages@.len() > 0 && same_request_type(messages@) && request_type_of(messages@[0])
                    == RequestType::GeminiContentV1 && system_instructions@.len() > 1 ==> r == Err::<Prompt, TypeError>(
                    TypeError::MoreThanOneSystemInstruction,
                )
                &&& messages@.len() > 0 && same_request_type(messages@) && !(request_type_of(messages@[0])
                    == RequestType::GeminiContentV1 && system_instructions@.len() > 1) ==> (r matches Ok(p)
                    && p.model@ == model@ && p.provider == provider && p.response_type == response_type
                    && p.version@ == VERSION@ && sv(p.parameters@).no_duplicates() && (forall|x: Seq<char>|
                    #[trigger] sv(p.parameters@).contains(x) <==> (messages_vars(system_instructions@).contains(x)
                        || messages_vars(messages@).contains(x))) && request_messages(p.request).len()
                    == messages@.len() + (if request_type_of(messages@[0]) == RequestType::OpenAIChatV1 {
                    system_instructions@.len() as int
                } else {
                    0
                }))
            },
    {
        let settings = match model_settings {
            Some(s) => {
                s.validate_provider(&provider)?;
                s
            },
            None => ModelSettings::provider_default_settings(&provider),
        };
        let parameters = Prompt::extract_variables(&messages, &system_instructions);
        let ghost mv = messages@;
        let ghost sysv = system_instructions@;
        let request = to_provider_request(messages, system_instructions, model.to_owned(), settings, response_json_schema)?;
        proof {
            if mv.len() > 0 && same_request_type(mv) && request_type_of(mv[0]) == RequestType::OpenAIChatV1 {
                assert(request_messages(request).len() == sysv.len() + mv.len());
            }
        }
        Ok(Prompt { request, model: model.to_owned(), provider, version: VERSION.to_owned(), parameters, response_type })
    }

    /// The provider and model, as `provider:model`.
    pub fn model_identifier(&self) -> (r: String)
        ensures
            r@ == provider_name(self.provider) + ":"@ + self.model@,
    {
        let head = concat(self.provider.as_str(), ":");
        concat(head.as_str(), self.model.as_str())
    }

    /// Binds variables in every user message: `name` to `value` when both are
    /// given, then each pair of `kwargs` in order; other messages and the rest of
    /// the request stay as they are. Fails, after that, when no name and no
    /// pair were given.
    pub fn bind_mut(
        &mut self,
        name: Option<&str>,
        value: Option<&str>,
        kwargs: Option<Vec<(String, String)>>,
    ) -> (r: Result<(), TypeError>)
        ensures
            (name is None && (kwargs is None || kwargs->0@.len() == 0)) ==> (r matches Err(TypeError::Error(m)) && m@
                == "Must provide either (name, value) or keyword arguments for binding"@),
            !(name is None && (kwargs is None || kwargs->0@.len() == 0)) ==> r is Ok,
            final(self).model == old(self).model && final(self).provider == old(self).provider
                && final(self).parameters == old(self).parameters && final(self).response_type == old(self).response_type,
            same_frame(old(self).request, final(self).request),
            bound_through(
                request_messages(old(self).request),
                request_messages(final(self).request),
                bind_pairs(name, value, kwargs),
            ),
            (name is None || value is None) && (kwargs is None || kwargs->0@.len() == 0) ==> *final(self) == *old(self),
    {
        let no_pairs = match &kwargs {
            None => true,
            Some(k) => k.len() == 0,
        };
        let ghost start = request_messages(self.request);
        match (name, value) {
            (Some(n), Some(v)) => {
                self.request.bind_messages(n, v);
                proof {
                    lemma_bound_through_push(start, start, request_messages(self.request), Seq::empty(), n@, v@);
                    assert(Seq::<(Seq<char>, Seq<char>)>::empty().push((n@, v@)) =~= name_pair(name, value));
                }
            },
            _ => {
                assert(name_pair(name, value) =~= Seq::<(Seq<char>, Seq<char>)>::empty());
            },
        }
        match kwargs {
            Some(pairs) => {
                let ghost first = name_pair(name, value);
                let ghost pv = pairs_view(pairs@);
                if pairs.len() > 0 {
                    proof {
                        assert(first + pv.take(0) =~= first);
                    }
                    let mut i: usize = 0;
                    while i < pairs.len()
                        invariant
                            i <= pairs@.len(),
                            pv == pairs_view(pairs@),
                            self.model == old(self).model,
                            self.provider == old(self).provider,
                            self.parameters == old(self).parameters,
                            self.response_type == old(self).response_type,
                            same_frame(old(self).request, self.request),
                            bound_through(start, request_messages(self.request), first + pv.take(i as int)),
                        decreases pairs@.len() - i,
                    {
                        let ghost before = request_messages(self.request);
                        self.request.bind_messages(pairs[i].0.as_str(), pairs[i].1.as_str());
                        proof {
                            lemma_bound_through_push(
                                start,
                                before,
                                request_messages(self.request),
                                first + pv.take(i as int),
                                pairs@[i as int].0@,
                                pairs@[i as int].1@,
                            );
                            assert((first + pv.take(i as int)).push((pairs@[i as int].0@, pairs@[i as int].1@)) =~= first
                                + pv.take(i + 1));
                        }
                        i = i + 1;
                    }
                    proof {
                        assert(pv.take(i as int) =~= pv);
                        assert(first + pv =~= bind_pairs(name, value, Some(pairs)));
                    }
                } else {
                    proof {
                        assert(pv =~= Seq::<(Seq<char>, Seq<char>)>::empty());
                        assert(first + pv =~= first);
                        assert(first + pv =~= bind_pairs(name, value, Some(pairs)));
                    }
                }
            },
            None => {
                assert(name_pair(name, value) =~= bind_pairs(name, value, kwargs));
            },
        }
        if name.is_none() && no_pairs {
            return Err(TypeError::Error("Must provide either (name, value) or keyword arguments for binding".to_owned()));
        }
        Ok(())
    }
}

/// The pairs of a list of variable bindings, as text.
pub open spec fn pairs_view(v: Seq<(String, String)>) -> Seq<(Seq<char>, Seq<char>)> {
    Seq::new(v.len(), |i: int| (v[i].0@, v[i].1@))
}

/// The binding of `name` to `value`, when both are given.
pub open spec fn name_pair(name: Option<&str>, value: Option<&str>) -> Seq<(Seq<char>, Seq<char>)> {
    match (name, value) {
        (Some(n), Some(v)) => seq![(n@, v@)],
        _ => Seq::empty(),
    }
}

/// The bindings that `Prompt::bind_mut` applies, in order: `name` to `value`
/// first, then the pairs of `kwargs`.
pub open spec fn bind_pairs(
    name: Option<&str>,
    value: Option<&str>,
    kwargs: Option<Vec<(String, String)>>,
) -> Seq<(Seq<char>, Seq<char>)> {
    name_pair(name, value) + match kwargs {
        Some(k) => pairs_view(k@),
        None => Seq::empty(),
    }
}

/// A message as a caller hands it over: a text, a message in the format of one
/// of the providers, or a value of another type, given by the name of its type.
#[derive(Debug, PartialEq)]
pub enum MessageItem {
    Text(String),
    OpenAI(ChatMessage),
    Anthropic(MessageParam),
    Gemini(GeminiContent),
    Other(String),
}

/// One message, or a list of them.
#[derive(Debug, PartialEq)]
pub enum MessagesInput {
    One(MessageItem),
    Many(Vec<MessageItem>),
}

/// The items of an input, in order.
pub open spec fn input_items(m: MessagesInput) -> Seq<MessageItem> {
    match m {
        MessagesInput::One(x) => seq![x],
        MessagesInput::Many(v) => v@,
    }
}

/// `m` is a message in the format of `p` that holds one plain text part,
/// `content`, under `role`.
pub open spec fn text_message(m: MessageNum, p: Provider, role: Seq<char>, content: Seq<char>) -> bool {
    &&& num_format(m) == provider_format(p)
    &&& num_role(m) == role
    &&& num_len(m) == 1
    &&& num_all_text(m)
    &&& num_plain_text(m)
    &&& num_text_at(m, 0) == content
}

/// The message when text cannot become a message of the provider.
pub open spec fn unsupported_provider_message() -> Seq<char> {
    "Unsupported provider for message creation: Undefined"@
}

/// The role under which system instructions are given to a provider.
pub open spec fn system_role(p: Provider) -> Seq<char> {
    match p {
        Provider::OpenAI | Provider::Gemini | Provider::Vertex | Provider::Google => role_name(Role::Developer),
        Provider::Anthropic => role_name(Role::Assistant),
        Provider::Undefined => role_name(Role::System),
    }
}

/// The role under which system instructions are given to a provider.
pub fn get_system_role(provider: &Provider) -> (r: &'static str)
    ensures
        r@ == system_role(*provider),
{
    match provider {
        Provider::OpenAI | Provider::Gemini | Provider::Vertex | Provider::Google => Role::Developer.as_str(),
        Provider::Anthropic => Role::Assistant.as_str(),
        Provider::Undefined => Role::System.as_str(),
    }
}

/// A message of one text part in the format of the provider.
pub fn create_message_for_provider(content: String, provider: &Provider, role: &str) -> (r: Result<MessageNum, TypeError>)
    ensures
        provider_format(*provider) != 0 ==> (r matches Ok(m) && text_message(m, *provider, role@, content@)),
        provider_format(*provider) == 0 ==> (r matches Err(TypeError::Error(e)) && e@ == unsupported_provider_message()),
{
    match provider {
        Provider::OpenAI => {
            let m = ChatMessage::from_text(content, role)?;
            let r = MessageNum::OpenAIMessageV1(m);
            proof {
                assert(m.content@.len() == 1);
            }
            Ok(r)
        },
        Provider::Anthropic => {
            let m = MessageParam::from_text(content, role)?;
            Ok(MessageNum::AnthropicMessageV1(m))
        },
        Provider::Gemini | Provider::Google | Provider::Vertex => {
            let m = GeminiContent::from_text(content, role)?;
            Ok(MessageNum::GeminiContentV1(m))
        },
        Provider::Undefined => Err(TypeError::Error("Unsupported provider for message creation: Undefined".to_owned())),
    }
}

/// Whether an item can become a message of the provider.
pub open spec fn item_ok(item: MessageItem, p: Provider) -> bool {
    match item {
        MessageItem::Text(_) => provider_format(p) != 0,
        MessageItem::Other(_) => false,
        _ => true,
    }
}

/// `m` is the message that `item` becomes for provider `p` under `role`.
pub open spec fn item_parsed(item: MessageItem, p: Provider, role: Seq<char>, m: MessageNum) -> bool {
    match item {
        MessageItem::Text(t) => text_message(m, p, role, t@),
        MessageItem::OpenAI(x) => m == MessageNum::OpenAIMessageV1(x),
        MessageItem::Anthropic(x) => m == MessageNum::AnthropicMessageV1(x),
        MessageItem::Gemini(x) => m == MessageNum::GeminiContentV1(x),
        MessageItem::Other(_) => false,
    }
}

/// `e` is the error for an item that cannot become a message of the provider.
pub open spec fn item_error(item: MessageItem, e: TypeError) -> bool {
    match item {
        MessageItem::Text(_) => e matches TypeError::Error(s) && s@ == unsupported_provider_message(),
        MessageItem::Other(n) => e == TypeError::InvalidMessageTypeInList(n),
        _ => false,
    }
}

/// Turns one item into a message of the provider.
pub fn parse_single_message(message: MessageItem, provider: &Provider, default_role: &str) -> (r: Result<
    MessageNum,
    TypeError,
>)
    ensures
        item_ok(message, *provider) ==> (r matches Ok(m) && item_parsed(message, *provider, default_role@, m)),
        !item_ok(message, *provider) ==> (r matches Err(e) && item_error(message, e)),
{
    match message {
        MessageItem::Text(text) => create_message_for_provider(text, provider, default_role),
        MessageItem::OpenAI(m) => Ok(MessageNum::OpenAIMessageV1(m)),
        MessageItem::Anthropic(m) => Ok(MessageNum::AnthropicMessageV1(m)),
        MessageItem::Gemini(m) => Ok(MessageNum::GeminiContentV1(m)),
        MessageItem::Other(name) => Err(TypeError::InvalidMessageTypeInList(name)),
    }
}

/// Whether a role makes the messages of an Anthropic prompt system messages.
pub open spec fn system_like_role(role: Seq<char>) -> bool {
    role == role_name(Role::System) || role == role_name(Role::Assistant) || role == role_name(Role::Developer)
}

/// Whether the item, once a message, can become an Anthropic system message.
pub open spec fn item_system_ok(item: MessageItem) -> bool {
    match item {
        MessageItem::Text(_) => true,
        MessageItem::Anthropic(x) => x.content@.len() == 1 && x.content@[0].inner is Text,
        _ => false,
    }
}

/// `m` is the Anthropic system message that the item becomes.
pub open spec fn item_system_parsed(item: MessageItem, m: MessageNum) -> bool {
    match item {
        MessageItem::Text(t) => m matches MessageNum::AnthropicSystemMessageV1(b) && b.text@ == t@
            && b.cache_control is None && b.citations is None && b.kind@ == "text"@,
        MessageItem::Anthropic(x) => x.content@[0].inner matches ContentBlock::Text(b) && m
            == MessageNum::AnthropicSystemMessageV1(b),
        _ => false,
    }
}

/// `e` is the error for an item that cannot become an Anthropic system message.
pub open spec fn item_system_error(item: MessageItem, e: TypeError) -> bool {
    match item {
        MessageItem::Anthropic(_) => e is InvalidInput,
        _ => e matches TypeError::Error(s) && s@ == "Cannot convert non-AnthropicMessageV1 to system message"@,
    }
}

/// The position of the first item that fails `item_ok`, or the length.
pub open spec fn first_bad_item(items: Seq<MessageItem>, p: Provider) -> int
    decreases items.len(),
{
    if items.len() == 0 {
        0
    } else if !item_ok(items[0], p) {
        0
    } else {
        1 + first_bad_item(items.drop_first(), p)
    }
}

/// The position of the first item that fails `item_system_ok`, or the length.
pub open spec fn first_bad_system_item(items: Seq<MessageItem>) -> int
    decreases items.len(),
{
    if items.len() == 0 {
        0
    } else if !item_system_ok(items[0]) {
        0
    } else {
        1 + first_bad_system_item(items.drop_first())
    }
}

proof fn lemma_first_bad_item(items: Seq<MessageItem>, p: Provider)
    ensures
        0 <= first_bad_item(items, p) <= items.len(),
        forall|j: int| 0 <= j < first_bad_item(items, p) ==> item_ok(#[trigger] items[j], p),
        first_bad_item(items, p) < items.len() ==> !item_ok(items[first_bad_item(items, p)], p),
    decreases items.len(),
{
    if items.len() > 0 && item_ok(items[0], p) {
        lemma_first_bad_item(items.drop_first(), p);
        assert forall|j: int| 0 <= j < first_bad_item(items, p) implies item_ok(#[trigger] items[j], p) by {
            if j > 0 {
                assert(items[j] == items.drop_first()[j - 1]);
            }
        }
    }
}

proof fn lemma_first_bad_system_item(items: Seq<MessageItem>)
    ensures
        0 <= first_bad_system_item(items) <= items.len(),
        forall|j: int| 0 <= j < first_bad_system_item(items) ==> item_system_ok(#[trigger] items[j]),
        first_bad_system_item(items) < items.len() ==> !item_system_ok(items[first_bad_system_item(items)]),
    decreases items.len(),
{
    if items.len() > 0 && item_system_ok(items[0]) {
        lemma_first_bad_system_item(items.drop_first());
        assert forall|j: int| 0 <= j < first_bad_system_item(items) implies item_system_ok(#[trigger] items[j]) by {
            if j > 0 {
                assert(items[j] == items.drop_first()[j - 1]);
            }
        }
    }
}

/// A text item in a system-like role becomes a system message of Anthropic.
proof fn lemma_item_to_system(item: MessageItem, m: MessageNum, role: Seq<char>)
    requires
        item_parsed(item, Provider::Anthropic, role, m),
    ensures
        match m {
            MessageNum::AnthropicMessageV1(x) => item_system_ok(item) == (x.content@.len() == 1
                && x.content@[0].inner is Text) && (item_system_ok(item) ==> (x.content@[0].inner matches ContentBlock::Text(
                b) && item_system_parsed(item, MessageNum::AnthropicSystemMessageV1(b)))),
            _ => !item_system_ok(item),
        },
{
    match item {
        MessageItem::Text(t) => {
            match m {
                MessageNum::AnthropicMessageV1(x) => {
                    assert(crate::message::plain_text_block(x.content@[0], crate::message::block_text(x.content@[0])));
                },
                _ => {},
            }
        },
        _ => {},
    }
}

/// Turns what the caller handed over into messages of the provider. Each item
/// is turned into a message, failing at the first that cannot be; for Anthropic,
/// messages in a system-like role then become system messages, failing at the
/// first that cannot.
pub fn parse_messages(messages: MessagesInput, provider: &Provider, default_role: &str) -> (r: Result<
    Vec<MessageNum>,
    TypeError,
>)
    ensures
        ({
            let items = input_items(messages);
            let k = first_bad_item(items, *provider);
            let convert = *provider == Provider::Anthropic && system_like_role(default_role@);
            let ks = first_bad_system_item(items);
            &&& k < items.len() ==> (r matches Err(e) && item_error(items[k], e))
            &&& k == items.len() && !convert ==> (r matches Ok(v) && v@.len() == items.len() && forall|i: int|
                0 <= i < items.len() ==> item_parsed(items[i], *provider, default_role@, #[trigger] v@[i]))
            &&& k == items.len() && convert && ks < items.len() ==> (r matches Err(e) && item_system_error(items[ks], e))
            &&& k == items.len() && convert && ks == items.len() ==> (r matches Ok(v) && v@.len() == items.len()
                && forall|i: int| 0 <= i < items.len() ==> item_system_parsed(items[i], #[trigger] v@[i]))
        }),
{
    let ghost items0 = input_items(messages);
    let mut items: Vec<MessageItem> = match messages {
        MessagesInput::One(x) => vec![x],
        MessagesInput::Many(v) => v,
    };
    proof {
        assert(items@ =~= items0);
        lemma_first_bad_item(items0, *provider);
        lemma_first_bad_system_item(items0);
    }
    let n = items.len();
    let mut parsed: Vec<MessageNum> = Vec::new();
    while items.len() > 0
        invariant
            items0 == input_items(messages),
            n == items0.len(),
            parsed@.len() + items@.len() == n,
            items@ == items0.skip(parsed@.len() as int),
            forall|j: int| 0 <= j < parsed@.len() ==> item_ok(#[trigger] items0[j], *provider),
            forall|j: int|
                0 <= j < parsed@.len() ==> item_parsed(items0[j], *provider, default_role@, #[trigger] parsed@[j]),
            0 <= first_bad_item(items0, *provider) <= n,
            forall|j: int| 0 <= j < first_bad_item(items0, *provider) ==> item_ok(#[trigger] items0[j], *provider),
            first_bad_item(items0, *provider) < n ==> !item_ok(items0[first_bad_item(items0, *provider)], *provider),
        decreases items@.len(),
    {
        let ghost k = parsed@.len() as int;
        let item = items.remove(0);
        proof {
            assert(item == items0[k]);
            assert(items@ =~= items0.skip(k + 1));
            if !item_ok(item, *provider) {
                assert(first_bad_item(items0, *provider) == k) by {
                    if first_bad_item(items0, *provider) < k {
                        let b = first_bad_item(items0, *provider);
                        assert(item_ok(items0[b], *provider));
                    } else if first_bad_item(items0, *provider) > k {
                        assert(item_ok(items0[k], *provider));
                    }
                }
            }
        }
        match parse_single_message(item, provider, default_role) {
            Ok(m) => parsed.push(m),
            Err(e) => {
                return Err(e);
            },
        }
    }
    proof {
        if first_bad_item(items0, *provider) < n {
            let b = first_bad_item(items0, *provider);
            assert(item_ok(items0[b], *provider));
        }
    }
    let convert = match provider {
        Provider::Anthropic => str_is_system_like(default_role),
        _ => false,
    };
    assert(first_bad_item(items0, *provider) == n);
    if !convert {
        return Ok(parsed);
    }
    let mut out: Vec<MessageNum> = Vec::new();
    while parsed.len() > 0
        invariant
            *provider == Provider::Anthropic,
            system_like_role(default_role@),
            first_bad_item(items0, *provider) == n,
            items0 == input_items(messages),
            n == items0.len(),
            out@.len() + parsed@.len() == n,
            forall|j: int|
                0 <= j < parsed@.len() ==> item_parsed(
                    items0[j + out@.len()],
                    *provider,
                    default_role@,
                    #[trigger] parsed@[j],
                ),
            forall|j: int| 0 <= j < out@.len() ==> item_system_ok(#[trigger] items0[j]),
            forall|j: int| 0 <= j < out@.len() ==> item_system_parsed(items0[j], #[trigger] out@[j]),
            0 <= first_bad_system_item(items0) <= n,
            forall|j: int| 0 <= j < first_bad_system_item(items0) ==> item_system_ok(#[trigger] items0[j]),
            first_bad_system_item(items0) < n ==> !item_system_ok(items0[first_bad_system_item(items0)]),
        decreases parsed@.len(),
    {
        let ghost k = out@.len() as int;
        let ghost before = parsed@;
        let mut m = parsed.remove(0);
        proof {
            assert(item_parsed(items0[k], *provider, default_role@, before[0]));
            assert forall|j: int| 0 <= j < parsed@.len() implies item_parsed(
                items0[j + k + 1],
                *provider,
                default_role@,
                #[trigger] parsed@[j],
            ) by {
                assert(parsed@[j] == before[j + 1]);
            }
            lemma_item_to_system(items0[k], m, default_role@);
            if !item_system_ok(items0[k]) {
                assert(first_bad_system_item(items0) == k) by {
                    if first_bad_system_item(items0) < k {
                        let b = first_bad_system_item(items0);
                        assert(item_system_ok(items0[b]));
                    } else if first_bad_system_item(items0) > k {
                        assert(item_system_ok(items0[k]));
                    }
                }
            }
        }
        let ghost m0 = m;
        match m.anthropic_message_to_system_message() {
            Ok(()) => {},
            Err(e) => {
                proof {
                    match items0[k] {
                        MessageItem::Anthropic(_) => {},
                        MessageItem::Text(_) => {},
                        _ => {
                            assert(!(m0 is AnthropicMessageV1));
                        },
                    }
                }
                return Err(e);
            },
        }
        out.push(m);
    }
    proof {
        if first_bad_system_item(items0) < n {
            let b = first_bad_system_item(items0);
            assert(item_system_ok(items0[b]));
        }
    }
    Ok(out)
}

/// Whether a role is `system`, `assistant` or `developer`.
fn str_is_system_like(role: &str) -> (r: bool)
    ensures
        r == system_like_role(role@),
{
    crate::text::str_eq(role, Role::System.as_str()) || crate::text::str_eq(role, Role::Assistant.as_str())
        || crate::text::str_eq(role, Role::Developer.as_str())
}

/// The system instructions, when given, as messages of the provider in its
/// system role.
pub fn extract_system_instructions(system_instruction: Option<MessagesInput>, provider: &Provider) -> (r: Result<
    Option<Vec<MessageNum>>,
    TypeError,
>)
    ensures
        system_instruction is None ==> r == Ok::<Option<Vec<MessageNum>>, TypeError>(None),
        system_instruction matches Some(m) ==> ({
            let items = input_items(m);
            let k = first_bad_item(items, *provider);
            let convert = *provider == Provider::Anthropic;
            let ks = first_bad_system_item(items);
            &&& k < items.len() ==> (r matches Err(e) && item_error(items[k], e))
            &&& k == items.len() && !convert ==> (r matches Ok(Some(v)) && v@.len() == items.len() && forall|i: int|
                0 <= i < items.len() ==> item_parsed(items[i], *provider, system_role(*provider), #[trigger] v@[i]))
            &&& k == items.len() && convert && ks < items.len() ==> (r matches Err(e) && item_system_error(items[ks], e))
            &&& k == items.len() && convert && ks == items.len() ==> (r matches Ok(Some(v)) && v@.len() == items.len()
                && forall|i: int| 0 <= i < items.len() ==> item_system_parsed(items[i], #[trigger] v@[i]))
        }),
{
    match system_instruction {
        Some(m) => {
            let role = get_system_role(provider);
            let v = parse_messages(m, provider, role)?;
            Ok(Some(v))
        },
        None => Ok(None),
    }
}

} // verus!
