use vstd::prelude::*;

use crate::error::TypeError;
use crate::text::{str_eq, to_ascii_lower, ascii_lower};

verus! {

/// The model providers that prompts and requests are built for.
#[derive(Debug, Clone, Copy, PartialEq, Eq, Structural, Hash)]
pub enum Provider {
    OpenAI,
    Gemini,
    Google,
    Vertex,
    Anthropic,
    Undefined,
}

/// The name of a provider, as `Provider::as_str` gives it.
pub open spec fn provider_name(p: Provider) -> Seq<char> {
    match p {
        Provider::OpenAI => "openai"@,
        Provider::Gemini => "gemini"@,
        Provider::Google => "google"@,
        Provider::Vertex => "vertex"@,
        Provider::Anthropic => "anthropic"@,
        Provider::Undefined => "undefined"@,
    }
}

/// The base URL of a provider's API.
pub open spec fn provider_url(p: Provider) -> Seq<char> {
    match p {
        Provider::OpenAI => "https://api.openai.com/v1"@,
        Provider::Gemini => "https://generativelanguage.googleapis.com/v1beta/models"@,
        Provider::Google => "https://generativelanguage.googleapis.com/v1beta/models"@,
        Provider::Anthropic => "https://api.anthropic.com/v1"@,
        _ => "https://undefined.provider.url"@,
    }
}

/// The names of distinct providers differ.
pub proof fn lemma_provider_names_distinct(p: Provider, q: Provider)
    ensures
        provider_name(p) == provider_name(q) ==> p == q,
{
    reveal_strlit("openai");
    reveal_strlit("gemini");
    reveal_strlit("google");
    reveal_strlit("vertex");
    reveal_strlit("anthropic");
    reveal_strlit("undefined");
    if provider_name(p) == provider_name(q) {
        assert(provider_name(p).len() == provider_name(q).len());
        assert(provider_name(p)[0] == provider_name(q)[0]);
        assert(provider_name(p)[1] == provider_name(q)[1]);
    }
}

/// The provider that the text `s` names, in any ASCII case, if any.
pub open spec fn parse_provider(s: Seq<char>) -> Option<Provider> {
    let l = ascii_lower(s);
    if l == "openai"@ {
        Some(Provider::OpenAI)
    } else if l == "gemini"@ {
        Some(Provider::Gemini)
    } else if l == "google"@ {
        Some(Provider::Google)
    } else if l == "vertex"@ {
        Some(Provider::Vertex)
    } else if l == "anthropic"@ {
        Some(Provider::Anthropic)
    } else if l == "undefined"@ {
        Some(Provider::Undefined)
    } else {
        None
    }
}

impl Provider {
    /// The provider's name.
    pub fn as_str(&self) -> (r: &'static str)
        ensures
            r@ == provider_name(*self),
    {
        match self {
            Provider::OpenAI => "openai",
            Provider::Gemini => "gemini",
            Provider::Google => "google",
            Provider::Vertex => "vertex",
            Provider::Anthropic => "anthropic",
            Provider::Undefined => "undefined",
        }
    }

    /// The base URL of the provider's API.
    pub fn url(&self) -> (r: &'static str)
        ensures
            r@ == provider_url(*self),
    {
        match self {
            Provider::OpenAI => "https://api.openai.com/v1",
            Provider::Gemini => "https://generativelanguage.googleapis.com/v1beta/models",
            Provider::Google => "https://generativelanguage.googleapis.com/v1beta/models",
            Provider::Anthropic => "https://api.anthropic.com/v1",
            _ => "https://undefined.provider.url",
        }
    }

    /// The provider whose name is `s`, in any ASCII case.
    pub fn from_string(s: &str) -> (r: Result<Provider, TypeError>)
        ensures
            match parse_provider(s@) {
                Some(p) => r == Ok::<Provider, TypeError>(p),
                None => r matches Err(TypeError::UnknownProviderError(m)) && m@ == s@,
            },
    {
        let lower = to_ascii_lower(s);
        let l = lower.as_str();
        if str_eq(l, "openai") {
            Ok(Provider::OpenAI)
        } else if str_eq(l, "gemini") {
            Ok(Provider::Gemini)
        } else if str_eq(l, "google") {
            Ok(Provider::Google)
        } else if str_eq(l, "vertex") {
            Ok(Provider::Vertex)
        } else if str_eq(l, "anthropic") {
            Ok(Provider::Anthropic)
        } else if str_eq(l, "undefined") {
            Ok(Provider::Undefined)
        } else {
            Err(TypeError::UnknownProviderError(s.to_owned()))
        }
    }

    /// The provider that a caller names: given as a provider, or by its name.
    pub fn extract_provider(provider: &ProviderInput) -> (r: Result<Provider, TypeError>)
        ensures
            match provider {
                ProviderInput::Provider(p) => r == Ok::<Provider, TypeError>(*p),
                ProviderInput::Name(s) => match parse_provider(s@) {
                    Some(p) => r == Ok::<Provider, TypeError>(p),
                    None => r matches Err(TypeError::UnknownProviderError(m)) && m@ == s@,
                },
            },
    {
        match provider {
            ProviderInput::Provider(p) => Ok(*p),
            ProviderInput::Name(s) => Provider::from_string(s.as_str()),
        }
    }
}

/// A provider as a caller names it: a provider, or its name.
#[derive(Debug, Clone, PartialEq)]
pub enum ProviderInput {
    Provider(Provider),
    Name(String),
}

/// Reading back the name of a provider gives the provider.
pub proof fn lemma_provider_name_round_trip(p: Provider)
    ensures
        ascii_lower(provider_name(p)) == provider_name(p),
{
    reveal_strlit("openai");
    reveal_strlit("gemini");
    reveal_strlit("google");
    reveal_strlit("vertex");
    reveal_strlit("anthropic");
    reveal_strlit("undefined");
    assert(ascii_lower(provider_name(p)) =~= provider_name(p));
}


/// Reading the name of a provider back gives that provider: `from_string`
/// of `as_str` is the provider itself.
pub proof fn lemma_from_string_of_name(p: Provider)
    ensures
        parse_provider(provider_name(p)) == Some(p),
{
    lemma_provider_name_round_trip(p);
    lemma_parse_provider_names(provider_name(p), p);
}

/// A name names a provider exactly when it is that provider's name in some
/// ASCII case.
pub proof fn lemma_parse_provider_names(s: Seq<char>, p: Provider)
    ensures
        parse_provider(s) == Some(p) <==> ascii_lower(s) == provider_name(p),
{
    lemma_provider_names_distinct(Provider::OpenAI, p);
    lemma_provider_names_distinct(Provider::Gemini, p);
    lemma_provider_names_distinct(Provider::Google, p);
    lemma_provider_names_distinct(Provider::Vertex, p);
    lemma_provider_names_distinct(Provider::Anthropic, p);
    lemma_provider_names_distinct(Provider::Undefined, p);
}

/// Reading the name of a provider back, in any ASCII case, gives that provider and no other.
pub proof fn lemma_provider_parse_name(p: Provider, q: Provider)
    ensures
        provider_name(q) == ascii_lower(provider_name(p)) <==> q == p,
{
    lemma_provider_name_round_trip(p);
    lemma_provider_names_distinct(p, q);
}

/// The models that a prompt can name.
#[derive(Debug, Clone, Copy, PartialEq, Eq, Structural, Hash)]
pub enum Model {
    Undefined,
}

/// The name of a model.
pub open spec fn model_name(m: Model) -> Seq<char> {
    match m {
        Model::Undefined => "undefined"@,
    }
}

impl Model {
    /// The model's name.
    pub fn as_str(&self) -> (r: &'static str)
        ensures
            r@ == model_name(*self),
    {
        match self {
            Model::Undefined => "undefined",
        }
    }

    /// The model whose name is `s`, in any ASCII case.
    pub fn from_string(s: &str) -> (r: Result<Model, TypeError>)
        ensures
            match r {
                Ok(m) => model_name(m) == ascii_lower(s@),
                Err(e) => (forall|m: Model| model_name(m) != ascii_lower(s@)) && (e matches TypeError::UnknownModelError(x) && x@ == s@),
            },
    {
        let lower = to_ascii_lower(s);
        if str_eq(lower.as_str(), "undefined") {
            Ok(Model::Undefined)
        } else {
            Err(TypeError::UnknownModelError(s.to_owned()))
        }
    }
}

/// The role of the author of a message.
#[derive(Debug, Clone, Copy, PartialEq, Eq, Structural)]
pub enum Role {
    User,
    Assistant,
    Developer,
    Tool,
    Model,
    System,
}

/// The name of a role, as it stands in messages.
pub open spec fn role_name(r: Role) -> Seq<char> {
    match r {
        Role::User => "user"@,
        Role::Assistant => "assistant"@,
        Role::Developer => "developer"@,
        Role::Tool => "tool"@,
        Role::Model => "model"@,
        Role::System => "system"@,
    }
}

impl Role {
    /// The role's name.
    pub fn as_str(&self) -> (r: &'static str)
        ensures
            r@ == role_name(*self),
    {
        match self {
            Role::User => "user",
            Role::Assistant => "assistant",
            Role::Developer => "developer",
            Role::Tool => "tool",
            Role::Model => "model",
            Role::System => "system",
        }
    }

    /// The role's name as an owned string.
    pub fn to_string(&self) -> (r: String)
        ensures
            r@ == role_name(*self),
    {
        self.as_str().to_owned()
    }
}

/// The names under which the library saves its files.
#[derive(Debug, Clone, Copy, PartialEq, Eq, Structural)]
pub enum SaveName {
    Prompt,
}

impl SaveName {
    /// The save name called `s`, if there is one.
    pub fn from_string(s: &str) -> (r: Option<SaveName>)
        ensures
            r == (if s@ == "prompt"@ { Some(SaveName::Prompt) } else { None::<SaveName> }),
    {
        if str_eq(s, "prompt") {
            Some(SaveName::Prompt)
        } else {
            None
        }
    }

    /// The file name that the save name stands for.
    pub fn as_string(&self) -> (r: &'static str)
        ensures
            r@ == "prompt"@,
    {
        match self {
            SaveName::Prompt => "prompt",
        }
    }
}

/// The type names that stand for primitive values.
pub open spec fn primitive_type_names() -> Set<Seq<char>> {
    set![
        "bool"@, "char"@, "i8"@, "i16"@, "i32"@, "i64"@, "i128"@, "u8"@, "u16"@, "u32"@,
        "u64"@, "u128"@, "f32"@, "f64"@, "String"@,
    ]
}

/// Whether `type_str` names a primitive type.
pub fn is_primitive(type_str: &str) -> (r: bool)
    ensures
        r == primitive_type_names().contains(type_str@),
{
    let names = [
        "bool", "char", "i8", "i16", "i32", "i64", "i128", "u8", "u16", "u32", "u64", "u128",
        "f32", "f64", "String",
    ];
    let mut i: usize = 0;
    while i < names.len()
        invariant
            i <= names@.len(),
            names@.len() == 15,
            forall|k: int| 0 <= k < 15 ==> primitive_type_names().contains(#[trigger] names@[k]@),
            forall|k: int| 0 <= k < i ==> names@[k]@ != type_str@,
            forall|x: Seq<char>| #[trigger] primitive_type_names().contains(x) ==> exists|k: int| 0 <= k < 15 && names@[k]@ == x,
        decreases names@.len() - i,
    {
        if str_eq(names[i], type_str) {
            return true;
        }
        i = i + 1;
    }
    false
}

} // verus!
