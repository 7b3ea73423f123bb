use vstd::prelude::*;

verus! {

/// The HTTP method of a request to a provider.
#[derive(Debug, Clone, Copy, PartialEq, Eq, Structural)]
pub enum RequestType {
    Get,
    Post,
}

/// The base URLs of the provider APIs that the clients call.
#[derive(Debug, Clone, Copy, PartialEq, Eq, Structural)]
pub enum ClientURL {
    OpenAI,
    Anthropic,
}

/// The base URL that a client URL stands for.
pub open spec fn client_url(c: ClientURL) -> Seq<char> {
    match c {
        ClientURL::OpenAI => "https://api.openai.com"@,
        ClientURL::Anthropic => "https://api.anthropic.com"@,
    }
}

impl ClientURL {
    /// The base URL.
    pub fn as_str(&self) -> (r: &'static str)
        ensures
            r@ == client_url(*self),
    {
        match self {
            ClientURL::OpenAI => "https://api.openai.com",
            ClientURL::Anthropic => "https://api.anthropic.com",
        }
    }
}

} // verus!
