use vstd::prelude::*;

use crate::error::TypeError;
use crate::json::{Json, JsonV};
use crate::template::{placeholder, replace_all, replace_placeholder, vars_of_texts, variables_of_texts};
use crate::text::clone_opt_str;
use crate::workflow::tasklist::sv;

verus! {

/// The language of code that the model runs.
#[derive(Debug, Clone, Copy, PartialEq, Eq, Structural)]
pub enum Language {
    LanguageUnspecified,
    Python,
}

/// How running the model's code ended.
#[derive(Debug, Clone, Copy, PartialEq, Eq, Structural)]
pub enum Outcome {
    OutcomeUnspecified,
    OutcomeOk,
    OutcomeFailed,
    OutcomeDeadlineExceeded,
}

/// The resolution at which the model looks at media.
#[derive(Debug, Clone, Copy, PartialEq, Eq, Structural)]
pub enum MediaResolution {
    MediaResolutionUnspecified,
    MediaResolutionLow,
    MediaResolutionMedium,
    MediaResolutionHigh,
}

/// A file stored elsewhere.
#[derive(Debug, Clone, PartialEq)]
pub struct FileData {
    pub mime_type: String,
    pub file_uri: String,
    pub display_name: Option<String>,
}

/// A call of a function that the model asks for; its arguments form a JSON object.
#[derive(Debug, PartialEq)]
pub struct FunctionCall {
    pub name: String,
    pub id: Option<String>,
    pub args: Option<Json>,
    pub will_continue: Option<bool>,
}

/// Raw bytes, as base64 text.
#[derive(Debug, Clone, PartialEq)]
pub struct Blob {
    pub mime_type: String,
    pub data: String,
    pub display_name: Option<String>,
}

/// What a function that the model called gave back, as a JSON object.
#[derive(Debug, PartialEq)]
pub struct FunctionResponse {
    pub name: String,
    pub response: Json,
}

/// Code that the model wrote to be run.
#[derive(Debug, Clone, PartialEq)]
pub struct ExecutableCode {
    pub language: Language,
    pub code: String,
}

/// What running the model's code gave.
#[derive(Debug, Clone, PartialEq)]
pub struct CodeExecutionResult {
    pub outcome: Outcome,
    pub output: Option<String>,
}

/// The part of a video that the model looks at.
#[derive(Debug, Clone, PartialEq)]
pub struct VideoMetadata {
    pub start_offset: Option<String>,
    pub end_offset: Option<String>,
}

/// Metadata of a part, as a JSON object.
#[derive(Debug, PartialEq)]
pub struct PartMetadata {
    pub fields: Json,
}

/// The data that a part holds.
#[derive(Debug, PartialEq)]
pub enum DataNum {
    InlineData(Blob),
    FileData(FileData),
    FunctionCall(FunctionCall),
    FunctionResponse(FunctionResponse),
    ExecutableCode(ExecutableCode),
    CodeExecutionResult(CodeExecutionResult),
    Text(String),
}

impl FunctionCall {
    /// A call of `name`; arguments that are not a JSON object are dropped.
    pub fn new(name: String, id: Option<String>, args: Option<Json>, will_continue: Option<bool>) -> (r: FunctionCall)
        ensures
            r.name == name && r.id == id && r.will_continue == will_continue,
            match args {
                Some(a) => if a.view() is Object {
                    r.args == Some(a)
                } else {
                    r.args is None
                },
                None => r.args is None,
            },
    {
        let args = match args {
            Some(a) => if a.is_object() {
                Some(a)
            } else {
                None
            },
            None => None,
        };
        FunctionCall { name, id, args, will_continue }
    }
}

impl PartMetadata {
    /// Metadata holding `fields` when it is a JSON object, and an empty object otherwise.
    pub fn new(fields: Option<Json>) -> (r: PartMetadata)
        ensures
            match fields {
                Some(f) => if f.view() is Object {
                    r.fields == f
                } else {
                    r.fields.view() == JsonV::Object(Seq::empty())
                },
                None => r.fields.view() == JsonV::Object(Seq::empty()),
            },
    {
        let empty: Vec<(String, Json)> = Vec::new();
        proof {
            crate::json::lemma_entries_view(empty);
            assert(crate::json::entries_view(empty@) =~= Seq::empty());
        }
        match fields {
            Some(f) => if f.is_object() {
                PartMetadata { fields: f }
            } else {
                PartMetadata { fields: Json::Object(empty) }
            },
            None => PartMetadata { fields: Json::Object(empty) },
        }
    }
}

/// Two pieces of data hold the same values.
pub open spec fn same_data(a: DataNum, b: DataNum) -> bool {
    match (a, b) {
        (DataNum::FunctionCall(x), DataNum::FunctionCall(y)) => x.name == y.name && x.id == y.id
            && x.will_continue == y.will_continue && match (x.args, y.args) {
            (None, None) => true,
            (Some(p), Some(q)) => p.view() == q.view(),
            _ => false,
        },
        (DataNum::FunctionResponse(x), DataNum::FunctionResponse(y)) => x.name == y.name && x.response.view()
            == y.response.view(),
        (DataNum::FunctionCall(_), _) => false,
        (DataNum::FunctionResponse(_), _) => false,
        _ => a == b,
    }
}

impl DataNum {
    /// A copy of this data.
    pub fn duplicate(&self) -> (r: Self)
        ensures
            same_data(*self, r),
    {
        match self {
            DataNum::InlineData(b) => DataNum::InlineData(
                Blob { mime_type: b.mime_type.clone(), data: b.data.clone(), display_name: clone_opt_str(&b.display_name) },
            ),
            DataNum::FileData(f) => DataNum::FileData(
                FileData { mime_type: f.mime_type.clone(), file_uri: f.file_uri.clone(), display_name: clone_opt_str(&f.display_name) },
            ),
            DataNum::FunctionCall(c) => DataNum::FunctionCall(
                FunctionCall {
                    name: c.name.clone(),
                    id: clone_opt_str(&c.id),
                    args: match &c.args {
                        Some(a) => Some(a.cloned()),
                        None => None,
                    },
                    will_continue: c.will_continue,
                },
            ),
            DataNum::FunctionResponse(f) => DataNum::FunctionResponse(
                FunctionResponse { name: f.name.clone(), response: f.response.cloned() },
            ),
            DataNum::ExecutableCode(e) => DataNum::ExecutableCode(ExecutableCode { language: e.language, code: e.code.clone() }),
            DataNum::CodeExecutionResult(c) => DataNum::CodeExecutionResult(
                CodeExecutionResult { outcome: c.outcome, output: clone_opt_str(&c.output) },
            ),
            DataNum::Text(t) => DataNum::Text(t.clone()),
        }
    }
}

/// A part of a message.
#[derive(Debug, PartialEq)]
pub struct Part {
    pub thought: Option<bool>,
    pub thought_signature: Option<String>,
    pub part_metadata: Option<PartMetadata>,
    pub media_resolution: Option<MediaResolution>,
    pub data: DataNum,
    pub video_metadata: Option<VideoMetadata>,
}

/// Two optional part metadata hold the same values.
pub open spec fn same_metadata(a: Option<PartMetadata>, b: Option<PartMetadata>) -> bool {
    match (a, b) {
        (None, None) => true,
        (Some(x), Some(y)) => x.fields.view() == y.fields.view(),
        _ => false,
    }
}

/// The parts `a` and `b` hold the same values, but for their data.
pub open spec fn same_part_frame(a: Part, b: Part) -> bool {
    a.thought == b.thought && a.thought_signature == b.thought_signature && same_metadata(a.part_metadata, b.part_metadata)
        && a.media_resolution == b.media_resolution && a.video_metadata == b.video_metadata
}

/// Two parts hold the same values.
pub open spec fn same_part(a: Part, b: Part) -> bool {
    same_part_frame(a, b) && same_data(a.data, b.data)
}

/// A part that holds `data` and nothing more.
pub open spec fn plain_part(p: Part) -> bool {
    p.thought is None && p.thought_signature is None && p.part_metadata is None && p.media_resolution is None
        && p.video_metadata is None
}

fn clone_metadata(m: &Option<PartMetadata>) -> (r: Option<PartMetadata>)
    ensures
        same_metadata(*m, r),
{
    match m {
        Some(x) => Some(PartMetadata { fields: x.fields.cloned() }),
        None => None,
    }
}

impl Part {
    /// A part that holds `data` and nothing more.
    pub fn from_data(data: DataNum) -> (r: Self)
        ensures
            r.data == data && plain_part(r),
    {
        Part {
            thought: None,
            thought_signature: None,
            part_metadata: None,
            media_resolution: None,
            data,
            video_metadata: None,
        }
    }

    /// A part that holds text and nothing more.
    pub fn from_text(content: String) -> (r: Self)
        ensures
            r.data == DataNum::Text(content) && plain_part(r),
    {
        Part::from_data(DataNum::Text(content))
    }

    /// The part used where none is given: empty text.
    pub fn default_part() -> (r: Self)
        ensures
            r.data matches DataNum::Text(t) && t@ == Seq::<char>::empty() && plain_part(r),
    {
        Part::from_data(DataNum::Text(String::new()))
    }

    /// A copy of this part.
    pub fn duplicate(&self) -> (r: Self)
        ensures
            same_part(*self, r),
    {
        Part {
            thought: self.thought,
            thought_signature: clone_opt_str(&self.thought_signature),
            part_metadata: clone_metadata(&self.part_metadata),
            media_resolution: self.media_resolution,
            data: self.data.duplicate(),
            video_metadata: match &self.video_metadata {
                Some(v) => Some(VideoMetadata { start_offset: clone_opt_str(&v.start_offset), end_offset: clone_opt_str(&v.end_offset) }),
                None => None,
            },
        }
    }
}

/// One item of a list given as the parts of a message.
#[derive(Debug, PartialEq)]
pub enum PartItem {
    Part(Part),
    Text(String),
    Data(DataNum),
    Other(String),
}

/// What is given as the parts of a message: text, a part, a piece of data, a
/// list of items, or a value of another type, known by its type's name.
#[derive(Debug, PartialEq)]
pub enum PartsInput {
    Text(String),
    Part(Part),
    Data(DataNum),
    List(Vec<PartItem>),
    Other(String),
}

/// `p` is the part that the list item `item` gives.
pub open spec fn part_of_item(item: PartItem, p: Part) -> bool {
    match item {
        PartItem::Part(q) => p == q,
        PartItem::Text(s) => p.data == DataNum::Text(s) && plain_part(p),
        PartItem::Data(d) => p.data == d && plain_part(p),
        PartItem::Other(_) => false,
    }
}

/// The index of the first item of another type, or the length when there is none.
pub open spec fn first_other_item(items: Seq<PartItem>) -> int
    decreases items.len(),
{
    if items.len() == 0 {
        0
    } else if items[0] is Other {
        0
    } else {
        1 + first_other_item(items.drop_first())
    }
}

proof fn lemma_first_other_item(items: Seq<PartItem>, i: int)
    requires
        0 <= i <= items.len(),
        forall|j: int| 0 <= j < i ==> !(#[trigger] items[j] is Other),
    ensures
        first_other_item(items) >= i,
        i < items.len() && items[i] is Other ==> first_other_item(items) == i,
        first_other_item(items) <= items.len(),
    decreases items.len(),
{
    if items.len() > 0 {
        if i > 0 {
            let rest = items.drop_first();
            assert forall|j: int| 0 <= j < i - 1 implies !(#[trigger] rest[j] is Other) by {
                assert(rest[j] == items[j + 1]);
            }
            lemma_first_other_item(rest, i - 1);
        } else {
            lemma_first_other_item(items.drop_first(), 0);
        }
    }
}

/// The parts of a message from what was given: a text, a part or a piece of
/// data gives one part; a list gives one part for each item and fails at the
/// first item of another type; any other value fails.
pub fn parts_from_input(parts: PartsInput) -> (r: Result<Vec<Part>, TypeError>)
    ensures
        match parts {
            PartsInput::Text(s) => r matches Ok(v) && v@.len() == 1 && v@[0].data == DataNum::Text(s) && plain_part(v@[0]),
            PartsInput::Part(p) => r matches Ok(v) && v@ == seq![p],
            PartsInput::Data(d) => r matches Ok(v) && v@.len() == 1 && v@[0].data == d && plain_part(v@[0]),
            PartsInput::List(items) => {
                let k = first_other_item(items@);
                if k < items@.len() {
                    r matches Err(TypeError::InvalidListType(m)) && (items@[k] matches PartItem::Other(n) && m == n)
                } else {
                    r matches Ok(v) && v@.len() == items@.len() && forall|i: int|
                        0 <= i < items@.len() ==> part_of_item(#[trigger] items@[i], v@[i])
                }
            },
            PartsInput::Other(_) => r == Err::<Vec<Part>, TypeError>(TypeError::InvalidPartType),
        },
{
    match parts {
        PartsInput::Text(s) => {
            let mut v: Vec<Part> = Vec::new();
            v.push(Part::from_text(s));
            Ok(v)
        },
        PartsInput::Part(p) => {
            let mut v: Vec<Part> = Vec::new();
            v.push(p);
            Ok(v)
        },
        PartsInput::Data(d) => {
            let mut v: Vec<Part> = Vec::new();
            v.push(Part::from_data(d));
            Ok(v)
        },
        PartsInput::List(items) => {
            let ghost iv = items@;
            let mut rest = items;
            let mut out: Vec<Part> = Vec::new();
            let ghost n = iv.len();
            while rest.len() > 0
                invariant
                    rest@.len() <= n,
                    n == iv.len(),
                    parts matches PartsInput::List(it) && it@ == iv,
                    rest@ == iv.skip(n - rest@.len()),
                    out@.len() == n - rest@.len(),
                    forall|j: int| 0 <= j < n - rest@.len() ==> !(#[trigger] iv[j] is Other),
                    forall|j: int| 0 <= j < n - rest@.len() ==> part_of_item(#[trigger] iv[j], out@[j]),
                decreases rest@.len(),
            {
                let ghost m = n - rest@.len();
                let item = rest.remove(0);
                proof {
                    assert(item == iv[m]);
                }
                match item {
                    PartItem::Part(p) => out.push(p),
                    PartItem::Text(s) => out.push(Part::from_text(s)),
                    PartItem::Data(d) => out.push(Part::from_data(d)),
                    PartItem::Other(name) => {
                        proof {
                            lemma_first_other_item(iv, m);
                        }
                        return Err(TypeError::InvalidListType(name));
                    },
                }
            }
            proof {
                lemma_first_other_item(iv, n as int);
            }
            Ok(out)
        },
        PartsInput::Other(_) => Err(TypeError::InvalidPartType),
    }
}

/// A message of a conversation with a Gemini model.
#[derive(Debug, PartialEq)]
pub struct GeminiContent {
    pub role: String,
    pub parts: Vec<Part>,
}

/// Two messages hold the same values.
pub open spec fn same_content(a: GeminiContent, b: GeminiContent) -> bool {
    a.role == b.role && a.parts@.len() == b.parts@.len() && forall|i: int|
        0 <= i < a.parts@.len() ==> same_part(#[trigger] a.parts@[i], b.parts@[i])
}

/// `b` is the part `a` with `${name}` replaced by `value` in its text.
pub open spec fn bound_gemini_part(a: Part, b: Part, name: Seq<char>, value: Seq<char>) -> bool {
    match a.data {
        DataNum::Text(t) => same_part_frame(a, b) && (b.data matches DataNum::Text(u) && u@ == replace_all(
            t@,
            placeholder(name),
            value,
        )),
        _ => same_part(a, b),
    }
}

/// `b` is the message `a` with `${name}` bound to `value` in its text parts.
pub open spec fn bound_content(a: GeminiContent, b: GeminiContent, name: Seq<char>, value: Seq<char>) -> bool {
    a.role == b.role && a.parts@.len() == b.parts@.len() && forall|i: int|
        0 <= i < a.parts@.len() ==> bound_gemini_part(#[trigger] a.parts@[i], b.parts@[i], name, value)
}

/// The texts of the text parts among `parts`, in order.
pub open spec fn gemini_texts(parts: Seq<Part>) -> Seq<Seq<char>>
    decreases parts.len(),
{
    if parts.len() == 0 {
        Seq::empty()
    } else {
        let rest = gemini_texts(parts.drop_last());
        match parts.last().data {
            DataNum::Text(t) => rest.push(t@),
            _ => rest,
        }
    }
}

impl GeminiContent {
    /// A message made from its parts, as `parts_from_input` reads them; the role
    /// is `user` when none is given.
    pub fn new(parts: PartsInput, role: Option<String>) -> (r: Result<Self, TypeError>)
        ensures
            match parts_from_input_spec(parts) {
                true => r matches Ok(c) && parts_given(parts, c.parts@) && (match role {
                    Some(x) => c.role == x,
                    None => c.role@ == "user"@,
                }),
                false => r is Err,
            },
    {
        let v = match parts_from_input(parts) {
            Ok(v) => v,
            Err(e) => {
                return Err(e);
            },
        };
        let role = match role {
            Some(x) => x,
            None => "user".to_owned(),
        };
        Ok(GeminiContent { role, parts: v })
    }

    /// A message of one text part.
    pub fn from_text(content: String, role: &str) -> (r: Result<Self, TypeError>)
        ensures
            r matches Ok(c) && c.role@ == role@ && c.parts@.len() == 1 && c.parts@[0].data == DataNum::Text(content)
                && plain_part(c.parts@[0]),
    {
        let mut v: Vec<Part> = Vec::new();
        v.push(Part::from_text(content));
        Ok(GeminiContent { role: role.to_owned(), parts: v })
    }

    /// A copy of this message.
    pub fn duplicate(&self) -> (r: Self)
        ensures
            same_content(*self, r),
    {
        let mut parts: Vec<Part> = Vec::new();
        let mut i: usize = 0;
        while i < self.parts.len()
            invariant
                i <= self.parts@.len(),
                parts@.len() == i,
                forall|k: int| 0 <= k < i ==> same_part(#[trigger] self.parts@[k], parts@[k]),
            decreases self.parts@.len() - i,
        {
            parts.push(self.parts[i].duplicate());
            i = i + 1;
        }
        GeminiContent { role: self.role.clone(), parts }
    }

    /// Replaces `${name}` with `value` in the text parts.
    pub fn bind_mut(&mut self, name: &str, value: &str) -> (r: Result<(), TypeError>)
        ensures
            r is Ok,
            bound_content(*old(self), *final(self), name@, value@),
    {
        let mut i: usize = 0;
        while i < self.parts.len()
            invariant
                i <= self.parts@.len(),
                self.parts@.len() == old(self).parts@.len(),
                self.role == old(self).role,
                forall|k: int| 0 <= k < i ==> bound_gemini_part(#[trigger] old(self).parts@[k], self.parts@[k], name@, value@),
                forall|k: int| i <= k < self.parts@.len() ==> #[trigger] self.parts@[k] == old(self).parts@[k],
            decreases self.parts@.len() - i,
        {
            let p = &self.parts[i];
            let replaced = match &p.data {
                DataNum::Text(t) => Some(
                    Part {
                        thought: p.thought,
                        thought_signature: clone_opt_str(&p.thought_signature),
                        part_metadata: clone_metadata(&p.part_metadata),
                        media_resolution: p.media_resolution,
                        data: DataNum::Text(replace_placeholder(t.as_str(), name, value)),
                        video_metadata: match &p.video_metadata {
                            Some(v) => Some(VideoMetadata { start_offset: clone_opt_str(&v.start_offset), end_offset: clone_opt_str(&v.end_offset) }),
                            None => None,
                        },
                    },
                ),
                _ => None,
            };
            match replaced {
                Some(q) => {
                    self.parts.set(i, q);
                },
                None => {
                    proof {
                        let a = old(self).parts@[i as int];
                        assert(same_part(a, a));
                    }
                },
            }
            i = i + 1;
        }
        Ok(())
    }

    /// A copy of this message with `${name}` replaced by `value` in its text parts.
    pub fn bind(&self, name: &str, value: &str) -> (r: Result<Self, TypeError>)
        ensures
            r matches Ok(c) && bound_content(*self, c, name@, value@),
    {
        let mut c = self.duplicate();
        let ghost d = c;
        let _ = c.bind_mut(name, value);
        proof {
            assert forall|k: int| 0 <= k < self.parts@.len() implies bound_gemini_part(#[trigger] self.parts@[k], c.parts@[k], name@, value@) by {
                assert(same_part(self.parts@[k], d.parts@[k]));
                assert(bound_gemini_part(d.parts@[k], c.parts@[k], name@, value@));
            }
        }
        Ok(c)
    }

    /// The texts of the text parts, in order.
    pub fn texts(&self) -> (r: Vec<String>)
        ensures
            sv(r@) == gemini_texts(self.parts@),
    {
        let mut out: Vec<String> = Vec::new();
        let mut i: usize = 0;
        while i < self.parts.len()
            invariant
                i <= self.parts@.len(),
                sv(out@) == gemini_texts(self.parts@.take(i as int)),
            decreases self.parts@.len() - i,
        {
            proof {
                assert(self.parts@.take(i + 1).drop_last() =~= self.parts@.take(i as int));
            }
            match &self.parts[i].data {
                DataNum::Text(t) => {
                    let ghost o = out@;
                    out.push(t.clone());
                    proof {
                        assert(sv(out@) =~= sv(o).push(t@));
                    }
                },
                _ => {},
            }
            i = i + 1;
        }
        proof {
            assert(self.parts@.take(i as int) =~= self.parts@);
        }
        out
    }

    /// The distinct names of the variables `${name}` in the text parts.
    pub fn extract_variables(&self) -> (r: Vec<String>)
        ensures
            sv(r@).no_duplicates(),
            forall|x: Seq<char>| #[trigger] sv(r@).contains(x) <==> vars_of_texts(gemini_texts(self.parts@)).contains(x),
    {
        let t = self.texts();
        variables_of_texts(&t)
    }
}

/// Where an API key is sent.
#[derive(Debug, Clone, Copy, PartialEq, Eq, Structural)]
pub enum HttpElementLocation {
    HttpInUnspecified,
    HttpInQuery,
    HttpInHeader,
    HttpInPath,
    HttpInBody,
    HttpInCookie,
}

/// How an external API authenticates calls.
#[derive(Debug, Clone, Copy, PartialEq, Eq, Structural)]
pub enum AuthType {
    AuthTypeUnspecified,
    NoAuth,
    ApiKeyAuth,
    HttpBasicAuth,
    GoogleServiceAccountAuth,
    Oauth,
    OidcAuth,
}

/// Authentication by an API key.
#[derive(Debug, Clone, PartialEq)]
pub struct ApiKeyConfig {
    pub name: Option<String>,
    pub api_key_secret: Option<String>,
    pub api_key_string: Option<String>,
    pub http_element_location: Option<HttpElementLocation>,
}

impl ApiKeyConfig {
    /// An API key configuration of the given values.
    pub fn new(
        name: Option<String>,
        api_key_secret: Option<String>,
        api_key_string: Option<String>,
        http_element_location: Option<HttpElementLocation>,
    ) -> (r: ApiKeyConfig)
        ensures
            r == (ApiKeyConfig { name, api_key_secret, api_key_string, http_element_location }),
    {
        ApiKeyConfig { name, api_key_secret, api_key_string, http_element_location }
    }
}

/// Authentication by HTTP basic credentials.
#[derive(Debug, Clone, PartialEq)]
pub struct HttpBasicAuthConfig {
    pub credential_secret: String,
}

impl HttpBasicAuthConfig {
    /// Basic authentication with the secret `credential_secret`.
    pub fn new(credential_secret: String) -> (r: HttpBasicAuthConfig)
        ensures
            r == (HttpBasicAuthConfig { credential_secret }),
    {
        HttpBasicAuthConfig { credential_secret }
    }
}

/// Authentication by a Google service account.
#[derive(Debug, Clone, PartialEq)]
pub struct GoogleServiceAccountConfig {
    pub service_account: Option<String>,
}

impl GoogleServiceAccountConfig {
    /// Authentication as `service_account`.
    pub fn new(service_account: Option<String>) -> (r: GoogleServiceAccountConfig)
        ensures
            r == (GoogleServiceAccountConfig { service_account }),
    {
        GoogleServiceAccountConfig { service_account }
    }
}

/// What an OAuth authentication uses.
#[derive(Debug, Clone, PartialEq)]
pub enum OauthConfigValue {
    AccessToken(String),
    ServiceAccount(String),
}

impl OauthConfigValue {
    /// Exactly one of an access token and a service account.
    pub fn new(access_token: Option<String>, service_account: Option<String>) -> (r: Result<Self, TypeError>)
        ensures
            match (access_token, service_account) {
                (Some(t), None) => r == Ok::<OauthConfigValue, TypeError>(OauthConfigValue::AccessToken(t)),
                (None, Some(a)) => r == Ok::<OauthConfigValue, TypeError>(OauthConfigValue::ServiceAccount(a)),
                _ => r == Err::<OauthConfigValue, TypeError>(TypeError::InvalidOauthConfig),
            },
    {
        match (access_token, service_account) {
            (Some(t), None) => Ok(OauthConfigValue::AccessToken(t)),
            (None, Some(a)) => Ok(OauthConfigValue::ServiceAccount(a)),
            _ => Err(TypeError::InvalidOauthConfig),
        }
    }
}

/// Authentication by OAuth.
#[derive(Debug, Clone, PartialEq)]
pub struct OauthConfig {
    pub oauth_config: OauthConfigValue,
}

impl OauthConfig {
    /// Exactly one of an access token and a service account.
    pub fn new(access_token: Option<String>, service_account: Option<String>) -> (r: Result<Self, TypeError>)
        ensures
            match (access_token, service_account) {
                (Some(t), None) => r == Ok::<OauthConfig, TypeError>(OauthConfig { oauth_config: OauthConfigValue::AccessToken(t) }),
                (None, Some(a)) => r == Ok::<OauthConfig, TypeError>(OauthConfig { oauth_config: OauthConfigValue::ServiceAccount(a) }),
                _ => r == Err::<OauthConfig, TypeError>(TypeError::InvalidOauthConfig),
            },
    {
        let v = OauthConfigValue::new(access_token, service_account)?;
        Ok(OauthConfig { oauth_config: v })
    }
}

/// What an OIDC authentication uses.
#[derive(Debug, Clone, PartialEq)]
pub enum OidcConfigValue {
    IdToken(String),
    ServiceAccount(String),
}

/// Authentication by OIDC.
#[derive(Debug, Clone, PartialEq)]
pub struct OidcConfig {
    pub oidc_config: OidcConfigValue,
}

impl OidcConfig {
    /// Exactly one of an ID token and a service account.
    pub fn new(id_token: Option<String>, service_account: Option<String>) -> (r: Result<Self, TypeError>)
        ensures
            match (id_token, service_account) {
                (Some(t), None) => r == Ok::<OidcConfig, TypeError>(OidcConfig { oidc_config: OidcConfigValue::IdToken(t) }),
                (None, Some(a)) => r == Ok::<OidcConfig, TypeError>(OidcConfig { oidc_config: OidcConfigValue::ServiceAccount(a) }),
                _ => r == Err::<OidcConfig, TypeError>(TypeError::InvalidOidcConfig),
            },
    {
        match (id_token, service_account) {
            (Some(t), None) => Ok(OidcConfig { oidc_config: OidcConfigValue::IdToken(t) }),
            (None, Some(a)) => Ok(OidcConfig { oidc_config: OidcConfigValue::ServiceAccount(a) }),
            _ => Err(TypeError::InvalidOidcConfig),
        }
    }
}

/// The authentication of an external API: one of five kinds.
#[derive(Debug, Clone, PartialEq)]
pub enum AuthConfigValue {
    ApiKeyConfig(ApiKeyConfig),
    HttpBasicAuthConfig(HttpBasicAuthConfig),
    GoogleServiceAccountConfig(GoogleServiceAccountConfig),
    OauthConfig(OauthConfig),
    OidcConfig(OidcConfig),
}

/// How many of the five options are given.
pub open spec fn given_count(a: bool, b: bool, c: bool, d: bool, e: bool) -> int {
    (if a { 1int } else { 0 }) + (if b { 1int } else { 0 }) + (if c { 1int } else { 0 }) + (if d { 1int } else { 0 })
        + (if e { 1int } else { 0 })
}

impl AuthConfigValue {
    /// The authentication made of exactly one of the five kinds; none or more
    /// than one fails with `InvalidAuthConfig`.
    pub fn new(
        api_key_config: Option<ApiKeyConfig>,
        http_basic_auth_config: Option<HttpBasicAuthConfig>,
        google_service_account_config: Option<GoogleServiceAccountConfig>,
        oauth_config: Option<OauthConfig>,
        oidc_config: Option<OidcConfig>,
    ) -> (r: Result<Self, TypeError>)
        ensures
            given_count(api_key_config is Some, http_basic_auth_config is Some, google_service_account_config is Some,
                oauth_config is Some, oidc_config is Some) != 1 ==> r == Err::<AuthConfigValue, TypeError>(TypeError::InvalidAuthConfig),
            given_count(api_key_config is Some, http_basic_auth_config is Some, google_service_account_config is Some,
                oauth_config is Some, oidc_config is Some) == 1 ==> r == Ok::<AuthConfigValue, TypeError>(
                match (api_key_config, http_basic_auth_config, google_service_account_config, oauth_config, oidc_config) {
                    (Some(x), _, _, _, _) => AuthConfigValue::ApiKeyConfig(x),
                    (_, Some(x), _, _, _) => AuthConfigValue::HttpBasicAuthConfig(x),
                    (_, _, Some(x), _, _) => AuthConfigValue::GoogleServiceAccountConfig(x),
                    (_, _, _, Some(x), _) => AuthConfigValue::OauthConfig(x),
                    (_, _, _, _, Some(x)) => AuthConfigValue::OidcConfig(x),
                    _ => AuthConfigValue::HttpBasicAuthConfig(HttpBasicAuthConfig { credential_secret: arbitrary() }),
                },
            ),
    {
        let mut count: u8 = 0;
        if api_key_config.is_some() {
            count += 1;
        }
        if http_basic_auth_config.is_some() {
            count += 1;
        }
        if google_service_account_config.is_some() {
            count += 1;
        }
        if oauth_config.is_some() {
            count += 1;
        }
        if oidc_config.is_some() {
            count += 1;
        }
        if count != 1 {
            return Err(TypeError::InvalidAuthConfig);
        }
        if let Some(config) = api_key_config {
            Ok(AuthConfigValue::ApiKeyConfig(config))
        } else if let Some(config) = http_basic_auth_config {
            Ok(AuthConfigValue::HttpBasicAuthConfig(config))
        } else if let Some(config) = google_service_account_config {
            Ok(AuthConfigValue::GoogleServiceAccountConfig(config))
        } else if let Some(config) = oauth_config {
            Ok(AuthConfigValue::OauthConfig(config))
        } else if let Some(config) = oidc_config {
            Ok(AuthConfigValue::OidcConfig(config))
        } else {
            Err(TypeError::InvalidAuthConfig)
        }
    }
}

/// The authentication of an external API with its type.
#[derive(Debug, Clone, PartialEq)]
pub struct AuthConfig {
    pub auth_type: AuthType,
    pub auth_config: AuthConfigValue,
}

/// `v` holds the parts that were given.
pub open spec fn parts_given(parts: PartsInput, v: Seq<Part>) -> bool {
    match parts {
        PartsInput::Text(s) => v.len() == 1 && v[0].data == DataNum::Text(s) && plain_part(v[0]),
        PartsInput::Part(p) => v == seq![p],
        PartsInput::Data(d) => v.len() == 1 && v[0].data == d && plain_part(v[0]),
        PartsInput::List(items) => v.len() == items@.len() && forall|i: int|
            0 <= i < items@.len() ==> part_of_item(#[trigger] items@[i], v[i]),
        PartsInput::Other(_) => false,
    }
}

/// Whether `parts_from_input` accepts what was given.
pub open spec fn parts_from_input_spec(parts: PartsInput) -> bool {
    match parts {
        PartsInput::List(items) => first_other_item(items@) >= items@.len(),
        PartsInput::Other(_) => false,
        _ => true,
    }
}

} // verus!
