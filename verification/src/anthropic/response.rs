use vstd::prelude::*;

use crate::anthropic::request::{
    CitationCharLocationParam, CitationContentBlockLocationParam, CitationPageLocationParam,
    CitationSearchResultLocationParam, CitationWebSearchResultLocationParam, ContentBlock,
    ContentBlockParam, RedactedThinkingBlockParam, ServerToolUseBlockParam, TextBlockParam,
    TextCitationParam, ThinkingBlockParam, ToolUseBlockParam, WebSearchResultBlockParam,
};
use crate::error::TypeError;
use crate::response::ResponseContent;
use crate::json::{json_parse, parse_json, Json, JsonV};
use crate::text::clone_opt_str;
use crate::logprobs::TokenLogProbs;
use crate::tools::ToolCallInfo;

verus! {

/// A citation of a range of characters of a document, as a response gives it.
#[derive(Debug, Clone, PartialEq)]
pub struct CitationCharLocation {
    pub cited_text: String,
    pub document_index: i32,
    pub document_title: String,
    pub end_char_index: i32,
    pub file_id: String,
    pub start_char_index: i32,
    pub kind: String,
}

/// A citation of a range of pages of a document, as a response gives it.
#[derive(Debug, Clone, PartialEq)]
pub struct CitationPageLocation {
    pub cited_text: String,
    pub document_index: i32,
    pub document_title: String,
    pub end_page_number: i32,
    pub file_id: String,
    pub start_page_number: i32,
    pub kind: String,
}

/// A citation of a range of content blocks, as a response gives it.
#[derive(Debug, Clone, PartialEq)]
pub struct CitationContentBlockLocation {
    pub cited_text: String,
    pub document_index: i32,
    pub document_title: String,
    pub end_block_index: i32,
    pub file_id: String,
    pub start_block_index: i32,
    pub kind: String,
}

/// A citation of a web search result, as a response gives it.
#[derive(Debug, Clone, PartialEq)]
pub struct CitationsWebSearchResultLocation {
    pub cited_text: String,
    pub encrypted_index: String,
    pub title: String,
    pub kind: String,
    pub url: String,
}

/// A citation of a search result, as a response gives it.
#[derive(Debug, Clone, PartialEq)]
pub struct CitationsSearchResultLocation {
    pub cited_text: String,
    pub end_block_index: i32,
    pub search_result_index: i32,
    pub source: String,
    pub start_block_index: i32,
    pub title: String,
    pub kind: String,
}

/// A citation in the text of a response.
#[derive(Debug, Clone, PartialEq)]
pub enum TextCitation {
    CharLocation(CitationCharLocation),
    PageLocation(CitationPageLocation),
    ContentBlockLocation(CitationContentBlockLocation),
    WebSearchResultLocation(CitationsWebSearchResultLocation),
    SearchResultLocation(CitationsSearchResultLocation),
}

/// A text block of a response.
#[derive(Debug, Clone, PartialEq)]
pub struct TextBlock {
    pub text: String,
    pub citations: Option<Vec<TextCitation>>,
    pub kind: String,
}

/// A block of the model's reasoning.
#[derive(Debug, Clone, PartialEq)]
pub struct ThinkingBlock {
    pub thinking: String,
    pub signature: Option<String>,
    pub kind: String,
}

/// A block of reasoning that the provider has hidden.
#[derive(Debug, Clone, PartialEq)]
pub struct RedactedThinkingBlock {
    pub data: String,
    pub kind: String,
}

/// A block in which the model calls a tool.
#[derive(Debug, PartialEq)]
pub struct ToolUseBlock {
    pub id: String,
    pub name: String,
    pub input: Json,
    pub kind: String,
}

/// A block in which the model calls a tool that the provider runs.
#[derive(Debug, PartialEq)]
pub struct ServerToolUseBlock {
    pub id: String,
    pub name: String,
    pub input: Json,
    pub kind: String,
}

/// A web search result.
#[derive(Debug, Clone, PartialEq)]
pub struct WebSearchResultBlock {
    pub encrypted_content: String,
    pub page_age: Option<String>,
    pub title: String,
    pub kind: String,
    pub url: String,
}

/// The error of a web search tool call.
#[derive(Debug, Clone, PartialEq)]
pub struct WebSearchToolResultError {
    pub error_code: String,
    pub kind: String,
}

/// What a web search tool call gave.
#[derive(Debug, Clone, PartialEq)]
pub enum WebSearchToolResultBlockContent {
    Error(WebSearchToolResultError),
    Results(Vec<WebSearchResultBlock>),
}

/// The result of a web search tool call.
#[derive(Debug, Clone, PartialEq)]
pub struct WebSearchToolResultBlock {
    pub content: WebSearchToolResultBlockContent,
    pub tool_use_id: String,
    pub kind: String,
}

/// A block of a response.
#[derive(Debug, PartialEq)]
pub enum ResponseContentBlockInner {
    Text(TextBlock),
    Thinking(ThinkingBlock),
    RedactedThinking(RedactedThinkingBlock),
    ToolUse(ToolUseBlock),
    ServerToolUse(ServerToolUseBlock),
    WebSearchToolResult(WebSearchToolResultBlock),
}

/// A block of a response.
#[derive(Debug, PartialEq)]
pub struct ResponseContentBlock {
    pub inner: ResponseContentBlockInner,
}

/// A copy of a citation.
fn dup_citation(c: &TextCitation) -> (r: TextCitation)
    ensures
        r == *c,
{
    match c {
        TextCitation::CharLocation(x) => TextCitation::CharLocation(
            CitationCharLocation {
                cited_text: x.cited_text.clone(),
                document_index: x.document_index,
                document_title: x.document_title.clone(),
                end_char_index: x.end_char_index,
                file_id: x.file_id.clone(),
                start_char_index: x.start_char_index,
                kind: x.kind.clone(),
            },
        ),
        TextCitation::PageLocation(x) => TextCitation::PageLocation(
            CitationPageLocation {
                cited_text: x.cited_text.clone(),
                document_index: x.document_index,
                document_title: x.document_title.clone(),
                end_page_number: x.end_page_number,
                file_id: x.file_id.clone(),
                start_page_number: x.start_page_number,
                kind: x.kind.clone(),
            },
        ),
        TextCitation::ContentBlockLocation(x) => TextCitation::ContentBlockLocation(
            CitationContentBlockLocation {
                cited_text: x.cited_text.clone(),
                document_index: x.document_index,
                document_title: x.document_title.clone(),
                end_block_index: x.end_block_index,
                file_id: x.file_id.clone(),
                start_block_index: x.start_block_index,
                kind: x.kind.clone(),
            },
        ),
        TextCitation::WebSearchResultLocation(x) => TextCitation::WebSearchResultLocation(
            CitationsWebSearchResultLocation {
                cited_text: x.cited_text.clone(),
                encrypted_index: x.encrypted_index.clone(),
                title: x.title.clone(),
                kind: x.kind.clone(),
                url: x.url.clone(),
            },
        ),
        TextCitation::SearchResultLocation(x) => TextCitation::SearchResultLocation(
            CitationsSearchResultLocation {
                cited_text: x.cited_text.clone(),
                end_block_index: x.end_block_index,
                search_result_index: x.search_result_index,
                source: x.source.clone(),
                start_block_index: x.start_block_index,
                title: x.title.clone(),
                kind: x.kind.clone(),
            },
        ),
    }
}

/// A copy of a list of citations.
fn dup_citations(v: &Vec<TextCitation>) -> (r: Vec<TextCitation>)
    ensures
        r@ == v@,
{
    let mut out: Vec<TextCitation> = Vec::new();
    let mut i: usize = 0;
    while i < v.len()
        invariant
            i <= v@.len(),
            out@ == v@.take(i as int),
        decreases v@.len() - i,
    {
        out.push(dup_citation(&v[i]));
        proof {
            assert(v@.take(i + 1) =~= v@.take(i as int).push(v@[i as int]));
        }
        i = i + 1;
    }
    proof {
        assert(v@.take(i as int) =~= v@);
    }
    out
}

/// A copy of a list of web search results.
fn dup_search_results(v: &Vec<WebSearchResultBlock>) -> (r: Vec<WebSearchResultBlock>)
    ensures
        r@ == v@,
{
    let mut out: Vec<WebSearchResultBlock> = Vec::new();
    let mut i: usize = 0;
    while i < v.len()
        invariant
            i <= v@.len(),
            out@ == v@.take(i as int),
        decreases v@.len() - i,
    {
        let x = &v[i];
        out.push(
            WebSearchResultBlock {
                encrypted_content: x.encrypted_content.clone(),
                page_age: clone_opt_str(&x.page_age),
                title: x.title.clone(),
                kind: x.kind.clone(),
                url: x.url.clone(),
            },
        );
        proof {
            assert(v@.take(i + 1) =~= v@.take(i as int).push(v@[i as int]));
        }
        i = i + 1;
    }
    proof {
        assert(v@.take(i as int) =~= v@);
    }
    out
}

/// The citations of a text block, each list taken as a sequence.
pub open spec fn citations_view(c: Option<Vec<TextCitation>>) -> Option<Seq<TextCitation>> {
    match c {
        Some(v) => Some(v@),
        None => None,
    }
}

/// Two blocks of a response hold the same values; lists are compared as sequences
/// and tool inputs as JSON values.
pub open spec fn same_response_block(a: ResponseContentBlockInner, b: ResponseContentBlockInner) -> bool {
    match (a, b) {
        (ResponseContentBlockInner::Text(x), ResponseContentBlockInner::Text(y)) => x.text == y.text && x.kind
            == y.kind && citations_view(x.citations) == citations_view(y.citations),
        (ResponseContentBlockInner::Thinking(x), ResponseContentBlockInner::Thinking(y)) => x == y,
        (ResponseContentBlockInner::RedactedThinking(x), ResponseContentBlockInner::RedactedThinking(y)) => x == y,
        (ResponseContentBlockInner::ToolUse(x), ResponseContentBlockInner::ToolUse(y)) => x.id == y.id && x.name
            == y.name && x.kind == y.kind && x.input.view() == y.input.view(),
        (ResponseContentBlockInner::ServerToolUse(x), ResponseContentBlockInner::ServerToolUse(y)) => x.id == y.id
            && x.name == y.name && x.kind == y.kind && x.input.view() == y.input.view(),
        (
            ResponseContentBlockInner::WebSearchToolResult(x),
            ResponseContentBlockInner::WebSearchToolResult(y),
        ) => x.tool_use_id == y.tool_use_id && x.kind == y.kind && match (x.content, y.content) {
            (WebSearchToolResultBlockContent::Error(e), WebSearchToolResultBlockContent::Error(f)) => e == f,
            (WebSearchToolResultBlockContent::Results(v), WebSearchToolResultBlockContent::Results(w)) => v@
                == w@,
            _ => false,
        },
        _ => false,
    }
}

impl ResponseContentBlock {
    /// A copy of the block.
    pub fn duplicate(&self) -> (r: ResponseContentBlock)
        ensures
            same_response_block(self.inner, r.inner),
    {
        let inner = match &self.inner {
            ResponseContentBlockInner::Text(t) => ResponseContentBlockInner::Text(
                TextBlock {
                    text: t.text.clone(),
                    citations: match &t.citations {
                        Some(c) => Some(dup_citations(c)),
                        None => None,
                    },
                    kind: t.kind.clone(),
                },
            ),
            ResponseContentBlockInner::Thinking(t) => ResponseContentBlockInner::Thinking(
                ThinkingBlock { thinking: t.thinking.clone(), signature: clone_opt_str(&t.signature), kind: t.kind.clone() },
            ),
            ResponseContentBlockInner::RedactedThinking(t) => ResponseContentBlockInner::RedactedThinking(
                RedactedThinkingBlock { data: t.data.clone(), kind: t.kind.clone() },
            ),
            ResponseContentBlockInner::ToolUse(t) => ResponseContentBlockInner::ToolUse(
                ToolUseBlock { id: t.id.clone(), name: t.name.clone(), input: t.input.cloned(), kind: t.kind.clone() },
            ),
            ResponseContentBlockInner::ServerToolUse(t) => ResponseContentBlockInner::ServerToolUse(
                ServerToolUseBlock { id: t.id.clone(), name: t.name.clone(), input: t.input.cloned(), kind: t.kind.clone() },
            ),
            ResponseContentBlockInner::WebSearchToolResult(t) => ResponseContentBlockInner::WebSearchToolResult(
                WebSearchToolResultBlock {
                    content: match &t.content {
                        WebSearchToolResultBlockContent::Error(e) => WebSearchToolResultBlockContent::Error(
                            WebSearchToolResultError { error_code: e.error_code.clone(), kind: e.kind.clone() },
                        ),
                        WebSearchToolResultBlockContent::Results(v) => WebSearchToolResultBlockContent::Results(
                            dup_search_results(v),
                        ),
                    },
                    tool_use_id: t.tool_use_id.clone(),
                    kind: t.kind.clone(),
                },
            ),
        };
        ResponseContentBlock { inner }
    }
}

/// The citation of a request that stands for a citation of a response: the same
/// fields, without the file.
pub open spec fn citation_param(c: TextCitation) -> TextCitationParam {
    match c {
        TextCitation::CharLocation(c) => TextCitationParam::CharLocation(
            CitationCharLocationParam {
                cited_text: c.cited_text,
                document_index: c.document_index,
                document_title: c.document_title,
                end_char_index: c.end_char_index,
                start_char_index: c.start_char_index,
                kind: c.kind,
            },
        ),
        TextCitation::PageLocation(c) => TextCitationParam::PageLocation(
            CitationPageLocationParam {
                cited_text: c.cited_text,
                document_index: c.document_index,
                document_title: c.document_title,
                end_page_number: c.end_page_number,
                start_page_number: c.start_page_number,
                kind: c.kind,
            },
        ),
        TextCitation::ContentBlockLocation(c) => TextCitationParam::ContentBlockLocation(
            CitationContentBlockLocationParam {
                cited_text: c.cited_text,
                document_index: c.document_index,
                document_title: c.document_title,
                end_block_index: c.end_block_index,
                start_block_index: c.start_block_index,
                kind: c.kind,
            },
        ),
        TextCitation::WebSearchResultLocation(c) => TextCitationParam::WebSearchResultLocation(
            CitationWebSearchResultLocationParam {
                cited_text: c.cited_text,
                encrypted_index: c.encrypted_index,
                title: c.title,
                kind: c.kind,
                url: c.url,
            },
        ),
        TextCitation::SearchResultLocation(c) => TextCitationParam::SearchResultLocation(
            CitationSearchResultLocationParam {
                cited_text: c.cited_text,
                end_block_index: c.end_block_index,
                search_result_index: c.search_result_index,
                source: c.source,
                start_block_index: c.start_block_index,
                title: c.title,
                kind: c.kind,
            },
        ),
    }
}

/// The citation that a request block keeps of a text block's citations: the first.
pub open spec fn first_citation_param(c: Option<Vec<TextCitation>>) -> Option<TextCitationParam> {
    match c {
        Some(v) => if v@.len() > 0 {
            Some(citation_param(v@[0]))
        } else {
            None
        },
        None => None,
    }
}

/// The request citation for a response citation.
pub fn to_citation_param(c: &TextCitation) -> (r: TextCitationParam)
    ensures
        r == citation_param(*c),
{
    match c {
        TextCitation::CharLocation(c) => TextCitationParam::CharLocation(
            CitationCharLocationParam {
                cited_text: c.cited_text.clone(),
                document_index: c.document_index,
                document_title: c.document_title.clone(),
                end_char_index: c.end_char_index,
                start_char_index: c.start_char_index,
                kind: c.kind.clone(),
            },
        ),
        TextCitation::PageLocation(c) => TextCitationParam::PageLocation(
            CitationPageLocationParam {
                cited_text: c.cited_text.clone(),
                document_index: c.document_index,
                document_title: c.document_title.clone(),
                end_page_number: c.end_page_number,
                start_page_number: c.start_page_number,
                kind: c.kind.clone(),
            },
        ),
        TextCitation::ContentBlockLocation(c) => TextCitationParam::ContentBlockLocation(
            CitationContentBlockLocationParam {
                cited_text: c.cited_text.clone(),
                document_index: c.document_index,
                document_title: c.document_title.clone(),
                end_block_index: c.end_block_index,
                start_block_index: c.start_block_index,
                kind: c.kind.clone(),
            },
        ),
        TextCitation::WebSearchResultLocation(c) => TextCitationParam::WebSearchResultLocation(
            CitationWebSearchResultLocationParam {
                cited_text: c.cited_text.clone(),
                encrypted_index: c.encrypted_index.clone(),
                title: c.title.clone(),
                kind: c.kind.clone(),
                url: c.url.clone(),
            },
        ),
        TextCitation::SearchResultLocation(c) => TextCitationParam::SearchResultLocation(
            CitationSearchResultLocationParam {
                cited_text: c.cited_text.clone(),
                end_block_index: c.end_block_index,
                search_result_index: c.search_result_index,
                source: c.source.clone(),
                start_block_index: c.start_block_index,
                title: c.title.clone(),
                kind: c.kind.clone(),
            },
        ),
    }
}

/// `p` is the request block that stands for the response block `b`.
pub open spec fn converted_block(b: ResponseContentBlockInner, p: ContentBlock) -> bool {
    match b {
        ResponseContentBlockInner::Text(t) => p == ContentBlock::Text(
            TextBlockParam {
                text: t.text,
                cache_control: None,
                citations: first_citation_param(t.citations),
                kind: t.kind,
            },
        ),
        ResponseContentBlockInner::Thinking(t) => p == ContentBlock::Thinking(
            ThinkingBlockParam { thinking: t.thinking, signature: t.signature, kind: t.kind },
        ),
        ResponseContentBlockInner::RedactedThinking(t) => p == ContentBlock::RedactedThinking(
            RedactedThinkingBlockParam { data: t.data, kind: t.kind },
        ),
        ResponseContentBlockInner::ToolUse(t) => p matches ContentBlock::ToolUse(u) && u.id == t.id
            && u.name == t.name && u.input.view() == t.input.view() && u.cache_control is None
            && u.kind == t.kind,
        ResponseContentBlockInner::ServerToolUse(t) => p matches ContentBlock::ServerToolUse(u) && u.id
            == t.id && u.name == t.name && u.input.view() == t.input.view() && u.cache_control is None
            && u.kind == t.kind,
        ResponseContentBlockInner::WebSearchToolResult(w) => match w.content {
            WebSearchToolResultBlockContent::Results(rs) => rs@.len() > 0 && p == ContentBlock::WebSearchResult(
                WebSearchResultBlockParam {
                    encrypted_content: rs@[0].encrypted_content,
                    title: rs@[0].title,
                    url: rs@[0].url,
                    page_agent: rs@[0].page_age,
                    kind: rs@[0].kind,
                },
            ),
            WebSearchToolResultBlockContent::Error(_) => false,
        },
    }
}

/// The error that converting a response block into a request block gives, if any.
pub open spec fn conversion_error(b: ResponseContentBlockInner) -> Option<Seq<char>> {
    match b {
        ResponseContentBlockInner::WebSearchToolResult(w) => match w.content {
            WebSearchToolResultBlockContent::Results(rs) => if rs@.len() > 0 {
                None
            } else {
                Some("WebSearchToolResult must contain at least one result"@)
            },
            WebSearchToolResultBlockContent::Error(_) => Some(
                "Cannot convert WebSearchToolResult error to ContentBlockParam"@,
            ),
        },
        _ => None,
    }
}

/// The request block that stands for a block of a response, so that the
/// model's answer can be sent back in the next turn of a conversation. A text
/// block keeps its first citation only; a web search result keeps its first
/// result; a web search error, or a search without results, cannot be sent back.
pub fn from_response_content_block(block: &ResponseContentBlockInner) -> (r: Result<ContentBlockParam, TypeError>)
    ensures
        match conversion_error(*block) {
            None => r matches Ok(p) && converted_block(*block, p.inner),
            Some(m) => r matches Err(TypeError::InvalidInput(e)) && e@ == m,
        },
{
    match block {
        ResponseContentBlockInner::Text(text_block) => {
            let citations = match &text_block.citations {
                Some(cits) => if cits.len() > 0 {
                    Some(to_citation_param(&cits[0]))
                } else {
                    None
                },
                None => None,
            };
            Ok(
                ContentBlockParam {
                    inner: ContentBlock::Text(
                        TextBlockParam {
                            text: text_block.text.clone(),
                            cache_control: None,
                            citations,
                            kind: text_block.kind.clone(),
                        },
                    ),
                },
            )
        },
        ResponseContentBlockInner::Thinking(b) => Ok(
            ContentBlockParam {
                inner: ContentBlock::Thinking(
                    ThinkingBlockParam {
                        thinking: b.thinking.clone(),
                        signature: clone_opt_str(&b.signature),
                        kind: b.kind.clone(),
                    },
                ),
            },
        ),
        ResponseContentBlockInner::RedactedThinking(b) => Ok(
            ContentBlockParam {
                inner: ContentBlock::RedactedThinking(
                    RedactedThinkingBlockParam { data: b.data.clone(), kind: b.kind.clone() },
                ),
            },
        ),
        ResponseContentBlockInner::ToolUse(b) => Ok(
            ContentBlockParam {
                inner: ContentBlock::ToolUse(
                    ToolUseBlockParam {
                        id: b.id.clone(),
                        name: b.name.clone(),
                        input: b.input.cloned(),
                        cache_control: None,
                        kind: b.kind.clone(),
                    },
                ),
            },
        ),
        ResponseContentBlockInner::ServerToolUse(b) => Ok(
            ContentBlockParam {
                inner: ContentBlock::ServerToolUse(
                    ServerToolUseBlockParam {
                        id: b.id.clone(),
                        name: b.name.clone(),
                        input: b.input.cloned(),
                        cache_control: None,
                        kind: b.kind.clone(),
                    },
                ),
            },
        ),
        ResponseContentBlockInner::WebSearchToolResult(w) => match &w.content {
            WebSearchToolResultBlockContent::Results(results) => {
                if results.len() == 0 {
                    return Err(
                        TypeError::InvalidInput(
                            "WebSearchToolResult must contain at least one result".to_owned(),
                        ),
                    );
                }
                let first = &results[0];
                Ok(
                    ContentBlockParam {
                        inner: ContentBlock::WebSearchResult(
                            WebSearchResultBlockParam {
                                encrypted_content: first.encrypted_content.clone(),
                                title: first.title.clone(),
                                url: first.url.clone(),
                                page_agent: clone_opt_str(&first.page_age),
                                kind: first.kind.clone(),
                            },
                        ),
                    },
                )
            },
            WebSearchToolResultBlockContent::Error(_) => Err(
                TypeError::InvalidInput(
                    "Cannot convert WebSearchToolResult error to ContentBlockParam".to_owned(),
                ),
            ),
        },
    }
}

/// Why the model stopped.
#[derive(Debug, Clone, Copy, PartialEq, Eq, Structural)]
pub enum StopReason {
    EndTurn,
    MaxTokens,
    StopSequence,
    ToolUse,
}

/// The name of a stop reason.
pub open spec fn stop_reason_name(r: StopReason) -> Seq<char> {
    match r {
        StopReason::EndTurn => "end_turn"@,
        StopReason::MaxTokens => "max_tokens"@,
        StopReason::StopSequence => "stop_sequence"@,
        StopReason::ToolUse => "tool_use"@,
    }
}

/// The tokens that a request used.
#[derive(Debug, Clone, PartialEq)]
pub struct Usage {
    pub input_tokens: i32,
    pub output_tokens: i32,
    pub cache_creation_input_tokens: Option<i32>,
    pub cache_read_input_tokens: Option<i32>,
    pub service_tier: Option<String>,
}

/// The answer of an Anthropic model.
#[derive(Debug, PartialEq)]
pub struct AnthropicMessageResponse {
    pub id: String,
    pub model: String,
    pub role: String,
    pub stop_reason: Option<StopReason>,
    pub stop_sequence: Option<String>,
    pub kind: String,
    pub usage: Usage,
    pub content: Vec<ResponseContentBlock>,
}

/// The text of the last text block, if there is one.
pub open spec fn last_text(blocks: Seq<ResponseContentBlock>) -> Option<Seq<char>>
    decreases blocks.len(),
{
    if blocks.len() == 0 {
        None
    } else {
        match blocks.last().inner {
            ResponseContentBlockInner::Text(t) => Some(t.text@),
            _ => last_text(blocks.drop_last()),
        }
    }
}

/// The tool use blocks, in order.
pub open spec fn tool_use_blocks(blocks: Seq<ResponseContentBlock>) -> Seq<ToolUseBlock>
    decreases blocks.len(),
{
    if blocks.len() == 0 {
        Seq::empty()
    } else {
        let rest = tool_use_blocks(blocks.drop_last());
        match blocks.last().inner {
            ResponseContentBlockInner::ToolUse(t) => rest.push(t),
            _ => rest,
        }
    }
}

/// The index of the first tool use block, or -1 when there is none.
pub open spec fn first_tool_use(blocks: Seq<ResponseContentBlock>) -> int
    decreases blocks.len(),
{
    if blocks.len() == 0 {
        -1
    } else if blocks[0].inner is ToolUse {
        0
    } else {
        let r = first_tool_use(blocks.drop_first());
        if r == -1 {
            -1
        } else {
            r + 1
        }
    }
}

proof fn lemma_first_tool_use_range(blocks: Seq<ResponseContentBlock>)
    ensures
        -1 <= first_tool_use(blocks) < blocks.len(),
        first_tool_use(blocks) >= 0 ==> blocks[first_tool_use(blocks)].inner is ToolUse,
    decreases blocks.len(),
{
    if blocks.len() > 0 && !(blocks[0].inner is ToolUse) {
        lemma_first_tool_use_range(blocks.drop_first());
        let r = first_tool_use(blocks.drop_first());
        if r >= 0 {
            assert(blocks[r + 1] == blocks.drop_first()[r]);
        }
    }
}

/// The call that a tool use block stands for.
pub open spec fn tool_call_of(t: ToolUseBlock, c: ToolCallInfo) -> bool {
    c.name == t.name && c.arguments.view() == t.input.view() && c.call_id == Some(t.id) && c.result is None
}

/// The JSON of a tool use block: `{"id", "input", "name", "type"}`.
pub open spec fn tool_use_json(t: ToolUseBlock) -> JsonV {
    JsonV::Object(
        seq![
            ("id"@, JsonV::Str(t.id@)),
            ("input"@, t.input.view()),
            ("name"@, JsonV::Str(t.name@)),
            ("type"@, JsonV::Str(t.kind@)),
        ],
    )
}

impl AnthropicMessageResponse {
    /// The first block of the answer, or an empty text block without citations
    /// when the answer has none.
    pub fn get_content(&self) -> (r: ResponseContent)
        ensures
            r matches ResponseContent::Anthropic(b) && (self.content@.len() > 0 ==> same_response_block(
                self.content@[0].inner,
                b.inner,
            )) && (self.content@.len() == 0 ==> (b.inner matches ResponseContentBlockInner::Text(t) && t.text@.len()
                == 0 && t.citations is None && t.kind@ == "text"@)),
    {
        if self.content.len() > 0 {
            ResponseContent::Anthropic(self.content[0].duplicate())
        } else {
            ResponseContent::Anthropic(
                ResponseContentBlock {
                    inner: ResponseContentBlockInner::Text(
                        TextBlock { text: String::new(), citations: None, kind: "text".to_owned() },
                    ),
                },
            )
        }
    }

    /// Whether the answer has no blocks.
    pub fn is_empty(&self) -> (r: bool)
        ensures
            r == (self.content@.len() == 0),
    {
        self.content.len() == 0
    }

    /// The identifier of the answer.
    pub fn id(&self) -> (r: &str)
        ensures
            r@ == self.id@,
    {
        self.id.as_str()
    }

    /// The text of the last text block, or the empty text.
    pub fn response_text(&self) -> (r: String)
        ensures
            r@ == match last_text(self.content@) {
                Some(t) => t,
                None => Seq::<char>::empty(),
            },
    {
        match self.last_text_block() {
            Some(t) => t,
            None => String::new(),
        }
    }

    /// The text of the last text block, if there is one.
    fn last_text_block(&self) -> (r: Option<String>)
        ensures
            match last_text(self.content@) {
                Some(t) => r matches Some(s) && s@ == t,
                None => r is None,
            },
    {
        let mut i = self.content.len();
        assert(self.content@.take(i as int) =~= self.content@);
        while i > 0
            invariant
                i <= self.content@.len(),
                last_text(self.content@) == last_text(self.content@.take(i as int)),
            decreases i,
        {
            proof {
                assert(self.content@.take(i as int).drop_last() =~= self.content@.take(i - 1));
                assert(self.content@.take(i as int).last() == self.content@[i - 1]);
            }
            match &self.content[i - 1].inner {
                ResponseContentBlockInner::Text(t) => {
                    return Some(t.text.clone());
                },
                _ => {},
            }
            i = i - 1;
        }
        None
    }

    /// The JSON that the last text block holds, if it holds JSON.
    pub fn structured_output_value(&self) -> (r: Option<Json>)
        ensures
            match last_text(self.content@) {
                Some(t) => (r is Some == json_parse(t) is Some) && (r matches Some(j) ==> j.view() == json_parse(t)->0),
                None => r is None,
            },
    {
        match self.last_text_block() {
            Some(t) => parse_json(t.as_str()),
            None => None,
        }
    }

    /// The model that answered.
    pub fn model_name(&self) -> (r: Option<&str>)
        ensures
            r matches Some(m) && m@ == self.model@,
    {
        Some(self.model.as_str())
    }

    /// Why the model stopped, by name.
    pub fn finish_reason(&self) -> (r: Option<&str>)
        ensures
            match self.stop_reason {
                Some(x) => r matches Some(m) && m@ == stop_reason_name(x),
                None => r is None,
            },
    {
        match self.stop_reason {
            Some(StopReason::EndTurn) => Some("end_turn"),
            Some(StopReason::MaxTokens) => Some("max_tokens"),
            Some(StopReason::StopSequence) => Some("stop_sequence"),
            Some(StopReason::ToolUse) => Some("tool_use"),
            None => None,
        }
    }

    /// The tokens of the prompt.
    pub fn input_tokens(&self) -> (r: Option<i64>)
        ensures
            r == Some(self.usage.input_tokens as i64),
    {
        Some(self.usage.input_tokens as i64)
    }

    /// The tokens of the answer.
    pub fn output_tokens(&self) -> (r: Option<i64>)
        ensures
            r == Some(self.usage.output_tokens as i64),
    {
        Some(self.usage.output_tokens as i64)
    }

    /// The tokens of prompt and answer together.
    pub fn total_tokens(&self) -> (r: Option<i64>)
        ensures
            r matches Some(t) && t == self.usage.input_tokens + self.usage.output_tokens,
    {
        Some(self.usage.input_tokens as i64 + self.usage.output_tokens as i64)
    }

    /// The log probabilities of the answer: Anthropic gives none.
    pub fn get_log_probs(&self) -> (r: Vec<TokenLogProbs>)
        ensures
            r@.len() == 0,
    {
        Vec::new()
    }

    /// The tools that the model called, in order.
    pub fn get_tool_calls(&self) -> (r: Vec<ToolCallInfo>)
        ensures
            r@.len() == tool_use_blocks(self.content@).len(),
            forall|k: int| 0 <= k < r@.len() ==> tool_call_of(tool_use_blocks(self.content@)[k], #[trigger] r@[k]),
    {
        let mut out: Vec<ToolCallInfo> = Vec::new();
        let mut i: usize = 0;
        while i < self.content.len()
            invariant
                i <= self.content@.len(),
                out@.len() == tool_use_blocks(self.content@.take(i as int)).len(),
                forall|k: int| 0 <= k < out@.len() ==> tool_call_of(tool_use_blocks(self.content@.take(i as int))[k], #[trigger] out@[k]),
            decreases self.content@.len() - i,
        {
            proof {
                assert(self.content@.take(i + 1).drop_last() =~= self.content@.take(i as int));
                assert(self.content@.take(i + 1).last() == self.content@[i as int]);
            }
            match &self.content[i].inner {
                ResponseContentBlockInner::ToolUse(t) => {
                    out.push(ToolCallInfo { name: t.name.clone(), arguments: t.input.cloned(), call_id: Some(t.id.clone()), result: None });
                },
                _ => {},
            }
            i = i + 1;
        }
        proof {
            assert(self.content@.take(i as int) =~= self.content@);
        }
        out
    }

    /// The first tool call as JSON, if the model called a tool.
    pub fn tool_call_output(&self) -> (r: Option<Json>)
        ensures
            first_tool_use(self.content@) == -1 ==> r is None,
            first_tool_use(self.content@) >= 0 ==> (r matches Some(j) && (self.content@[first_tool_use(self.content@)].inner matches ResponseContentBlockInner::ToolUse(t)
                && j.view() == tool_use_json(t))),
    {
        let mut i: usize = 0;
        assert(self.content@.skip(0) =~= self.content@);
        while i < self.content.len()
            invariant
                i <= self.content@.len(),
                forall|k: int| 0 <= k < i ==> !(#[trigger] self.content@[k].inner is ToolUse),
                first_tool_use(self.content@) == if first_tool_use(self.content@.skip(i as int)) == -1 {
                    -1
                } else {
                    first_tool_use(self.content@.skip(i as int)) + i
                },
            decreases self.content@.len() - i,
        {
            proof {
                assert(self.content@.skip(i as int).drop_first() =~= self.content@.skip(i + 1));
                assert(self.content@.skip(i as int)[0] == self.content@[i as int]);
            }
            match &self.content[i].inner {
                ResponseContentBlockInner::ToolUse(t) => {
                    let k1 = "id".to_owned();
                    let k2 = "input".to_owned();
                    let k3 = "name".to_owned();
                    let k4 = "type".to_owned();
                    let v1 = Json::Str(t.id.clone());
                    let v2 = t.input.cloned();
                    let v3 = Json::Str(t.name.clone());
                    let v4 = Json::Str(t.kind.clone());
                    assert(v1.view() == JsonV::Str(t.id@));
                    assert(v3.view() == JsonV::Str(t.name@));
                    assert(v4.view() == JsonV::Str(t.kind@));
                    let mut entries: Vec<(String, Json)> = Vec::new();
                    entries.push((k1, v1));
                    entries.push((k2, v2));
                    entries.push((k3, v3));
                    entries.push((k4, v4));
                    let j = Json::Object(entries);
                    proof {
                        let o = j.view()->Object_0;
                        assert(o.len() == 4);
                        assert(o[0] == ("id"@, JsonV::Str(t.id@)));
                        assert(o[1] == ("input"@, t.input.view()));
                        assert(o[2] == ("name"@, JsonV::Str(t.name@)));
                        assert(o[3] == ("type"@, JsonV::Str(t.kind@)));
                        assert(o =~= tool_use_json(*t)->Object_0);
                    }
                    return Some(j);
                },
                _ => {
                    proof {
                        let a = self.content@.skip(i as int);
                        assert(a.len() > 0);
                        assert(!(a[0].inner is ToolUse));
                        assert(first_tool_use(a) == if first_tool_use(a.drop_first()) == -1 {
                            -1
                        } else {
                            first_tool_use(a.drop_first()) + 1
                        });
                        assert(a.drop_first() == self.content@.skip(i + 1));
                        let b = self.content@.skip(i + 1);
                        lemma_first_tool_use_range(b);
                        assert(first_tool_use(self.content@) == if first_tool_use(b) == -1 {
                            -1
                        } else {
                            first_tool_use(b) + i + 1
                        });
                    }
                },
            }
            i = i + 1;
        }
        None
    }
}

} // verus!
