use vstd::prelude::*;

use crate::error::{TypeError, UtilError};
use crate::json::Json;
use crate::tools::AgentToolDefinition;
use crate::media::{contains_text, get_image_media_types, image_media_types};
use crate::template::{placeholder, replace_all, replace_placeholder, vars_of_texts, variables_of_texts};
use crate::text::{clone_opt_str, str_eq};
use crate::workflow::tasklist::sv;

verus! {

/// How long the provider may cache a part of the prompt.
#[derive(Debug, Clone, PartialEq)]
pub struct CacheControl {
    pub cache_type: String,
    pub ttl: Option<String>,
}

impl CacheControl {
    /// Cache control of the kind `cache_type`, kept for `ttl` when given.
    pub fn new(cache_type: String, ttl: Option<String>) -> (r: CacheControl)
        ensures
            r == (CacheControl { cache_type, ttl }),
    {
        CacheControl { cache_type, ttl }
    }

    /// A copy of this value.
    pub fn duplicate(&self) -> (r: CacheControl)
        ensures
            r == *self,
    {
        CacheControl { cache_type: self.cache_type.clone(), ttl: clone_opt_str(&self.ttl) }
    }
}

/// A copy of an optional cache control.
pub fn clone_cache(c: &Option<CacheControl>) -> (r: Option<CacheControl>)
    ensures
        r == *c,
{
    match c {
        Some(x) => Some(x.duplicate()),
        None => None,
    }
}

/// A citation of a range of characters of a document.
#[derive(Debug, Clone, PartialEq)]
pub struct CitationCharLocationParam {
    pub cited_text: String,
    pub document_index: i32,
    pub document_title: String,
    pub end_char_index: i32,
    pub start_char_index: i32,
    pub kind: String,
}

/// A citation of a range of pages of a document.
#[derive(Debug, Clone, PartialEq)]
pub struct CitationPageLocationParam {
    pub cited_text: String,
    pub document_index: i32,
    pub document_title: String,
    pub end_page_number: i32,
    pub start_page_number: i32,
    pub kind: String,
}

/// A citation of a range of content blocks of a document.
#[derive(Debug, Clone, PartialEq)]
pub struct CitationContentBlockLocationParam {
    pub cited_text: String,
    pub document_index: i32,
    pub document_title: String,
    pub end_block_index: i32,
    pub start_block_index: i32,
    pub kind: String,
}

/// A citation of a web search result.
#[derive(Debug, Clone, PartialEq)]
pub struct CitationWebSearchResultLocationParam {
    pub cited_text: String,
    pub encrypted_index: String,
    pub title: String,
    pub kind: String,
    pub url: String,
}

/// A citation of a search result.
#[derive(Debug, Clone, PartialEq)]
pub struct CitationSearchResultLocationParam {
    pub cited_text: String,
    pub end_block_index: i32,
    pub search_result_index: i32,
    pub source: String,
    pub start_block_index: i32,
    pub title: String,
    pub kind: String,
}

impl CitationCharLocationParam {
    /// A citation of characters of a document.
    pub fn new(
        cited_text: String,
        document_index: i32,
        document_title: String,
        end_char_index: i32,
        start_char_index: i32,
    ) -> (r: Self)
        ensures
            r.cited_text == cited_text && r.document_index == document_index && r.document_title
                == document_title && r.end_char_index == end_char_index && r.start_char_index
                == start_char_index && r.kind@ == "char_location"@,
    {
        CitationCharLocationParam {
            cited_text,
            document_index,
            document_title,
            end_char_index,
            start_char_index,
            kind: "char_location".to_owned(),
        }
    }
}

impl CitationPageLocationParam {
    /// A citation of pages of a document.
    pub fn new(
        cited_text: String,
        document_index: i32,
        document_title: String,
        end_page_number: i32,
        start_page_number: i32,
    ) -> (r: Self)
        ensures
            r.cited_text == cited_text && r.document_index == document_index && r.document_title
                == document_title && r.end_page_number == end_page_number && r.start_page_number
                == start_page_number && r.kind@ == "page_location"@,
    {
        CitationPageLocationParam {
            cited_text,
            document_index,
            document_title,
            end_page_number,
            start_page_number,
            kind: "page_location".to_owned(),
        }
    }
}

impl CitationContentBlockLocationParam {
    /// A citation of content blocks of a document.
    pub fn new(
        cited_text: String,
        document_index: i32,
        document_title: String,
        end_block_index: i32,
        start_block_index: i32,
    ) -> (r: Self)
        ensures
            r.cited_text == cited_text && r.document_index == document_index && r.document_title
                == document_title && r.end_block_index == end_block_index && r.start_block_index
                == start_block_index && r.kind@ == "content_block_location"@,
    {
        CitationContentBlockLocationParam {
            cited_text,
            document_index,
            document_title,
            end_block_index,
            start_block_index,
            kind: "content_block_location".to_owned(),
        }
    }
}

impl CitationWebSearchResultLocationParam {
    /// A citation of a web search result.
    pub fn new(cited_text: String, encrypted_index: String, title: String, url: String) -> (r: Self)
        ensures
            r.cited_text == cited_text && r.encrypted_index == encrypted_index && r.title == title
                && r.url == url && r.kind@ == "web_search_result_location"@,
    {
        CitationWebSearchResultLocationParam {
            cited_text,
            encrypted_index,
            title,
            kind: "web_search_result_location".to_owned(),
            url,
        }
    }
}

impl CitationSearchResultLocationParam {
    /// A citation of a search result.
    pub fn new(
        cited_text: String,
        end_block_index: i32,
        search_result_index: i32,
        source: String,
        start_block_index: i32,
        title: String,
    ) -> (r: Self)
        ensures
            r.cited_text == cited_text && r.end_block_index == end_block_index
                && r.search_result_index == search_result_index && r.source == source
                && r.start_block_index == start_block_index && r.title == title && r.kind@
                == "search_result_location"@,
    {
        CitationSearchResultLocationParam {
            cited_text,
            end_block_index,
            search_result_index,
            source,
            start_block_index,
            title,
            kind: "search_result_location".to_owned(),
        }
    }
}

/// The citation of a text block.
#[derive(Debug, Clone, PartialEq)]
pub enum TextCitationParam {
    CharLocation(CitationCharLocationParam),
    PageLocation(CitationPageLocationParam),
    ContentBlockLocation(CitationContentBlockLocationParam),
    WebSearchResultLocation(CitationWebSearchResultLocationParam),
    SearchResultLocation(CitationSearchResultLocationParam),
}

impl TextCitationParam {
    /// A copy of this citation.
    pub fn duplicate(&self) -> (r: Self)
        ensures
            r == *self,
    {
        match self {
            TextCitationParam::CharLocation(c) => TextCitationParam::CharLocation(
                CitationCharLocationParam {
                    cited_text: c.cited_text.clone(),
                    document_index: c.document_index,
                    document_title: c.document_title.clone(),
                    end_char_index: c.end_char_index,
                    start_char_index: c.start_char_index,
                    kind: c.kind.clone(),
                },
            ),
            TextCitationParam::PageLocation(c) => TextCitationParam::PageLocation(
                CitationPageLocationParam {
                    cited_text: c.cited_text.clone(),
                    document_index: c.document_index,
                    document_title: c.document_title.clone(),
                    end_page_number: c.end_page_number,
                    start_page_number: c.start_page_number,
                    kind: c.kind.clone(),
                },
            ),
            TextCitationParam::ContentBlockLocation(c) => TextCitationParam::ContentBlockLocation(
                CitationContentBlockLocationParam {
                    cited_text: c.cited_text.clone(),
                    document_index: c.document_index,
                    document_title: c.document_title.clone(),
                    end_block_index: c.end_block_index,
                    start_block_index: c.start_block_index,
                    kind: c.kind.clone(),
                },
            ),
            TextCitationParam::WebSearchResultLocation(c) => TextCitationParam::WebSearchResultLocation(
                CitationWebSearchResultLocationParam {
                    cited_text: c.cited_text.clone(),
                    encrypted_index: c.encrypted_index.clone(),
                    title: c.title.clone(),
                    kind: c.kind.clone(),
                    url: c.url.clone(),
                },
            ),
            TextCitationParam::SearchResultLocation(c) => TextCitationParam::SearchResultLocation(
                CitationSearchResultLocationParam {
                    cited_text: c.cited_text.clone(),
                    end_block_index: c.end_block_index,
                    search_result_index: c.search_result_index,
                    source: c.source.clone(),
                    start_block_index: c.start_block_index,
                    title: c.title.clone(),
                    kind: c.kind.clone(),
                },
            ),
        }
    }
}

/// A block of text.
#[derive(Debug, Clone, PartialEq)]
pub struct TextBlockParam {
    pub text: String,
    pub cache_control: Option<CacheControl>,
    pub citations: Option<TextCitationParam>,
    pub kind: String,
}

impl TextBlockParam {
    /// A text block of `text`.
    pub fn new_rs(text: String, cache_control: Option<CacheControl>, citations: Option<TextCitationParam>) -> (r: Self)
        ensures
            r.text == text && r.cache_control == cache_control && r.citations == citations
                && r.kind@ == "text"@,
    {
        TextBlockParam { text, cache_control, citations, kind: "text".to_owned() }
    }

    /// A copy of this block.
    pub fn duplicate(&self) -> (r: Self)
        ensures
            r == *self,
    {
        TextBlockParam {
            text: self.text.clone(),
            cache_control: clone_cache(&self.cache_control),
            citations: match &self.citations {
                Some(c) => Some(c.duplicate()),
                None => None,
            },
            kind: self.kind.clone(),
        }
    }
}

/// A copy of a list of text blocks.
pub fn clone_text_blocks(v: &Vec<TextBlockParam>) -> (r: Vec<TextBlockParam>)
    ensures
        r@ == v@,
{
    let mut out: Vec<TextBlockParam> = Vec::new();
    let mut i: usize = 0;
    while i < v.len()
        invariant
            i <= v@.len(),
            out@ == v@.take(i as int),
        decreases v@.len() - i,
    {
        out.push(v[i].duplicate());
        proof {
            assert(v@.take(i + 1) =~= v@.take(i as int).push(v@[i as int]));
        }
        i = i + 1;
    }
    proof {
        assert(v@.take(i as int) =~= v@);
    }
    out
}

/// An image given as base64 text.
#[derive(Debug, Clone, PartialEq)]
pub struct Base64ImageSource {
    pub media_type: String,
    pub data: String,
    pub kind: String,
}

impl Base64ImageSource {
    /// An image source; the media type must be one of the image media types.
    pub fn new(media_type: String, data: String) -> (r: Result<Self, TypeError>)
        ensures
            image_media_types().contains(media_type@) ==> (r matches Ok(s) && s.media_type
                == media_type && s.data == data && s.kind@ == "base64"@),
            !image_media_types().contains(media_type@) ==> (r matches Err(TypeError::InvalidMediaType(m))
                && m == media_type),
    {
        let types = get_image_media_types();
        if !contains_text(&types, media_type.as_str()) {
            return Err(TypeError::InvalidMediaType(media_type));
        }
        Ok(Base64ImageSource { media_type, data, kind: "base64".to_owned() })
    }
}

/// An image at a URL.
#[derive(Debug, Clone, PartialEq)]
pub struct UrlImageSource {
    pub url: String,
    pub kind: String,
}

impl UrlImageSource {
    /// An image at `url`.
    pub fn new(url: String) -> (r: Self)
        ensures
            r.url == url && r.kind@ == "url"@,
    {
        UrlImageSource { url, kind: "url".to_owned() }
    }
}

/// Where an image comes from.
#[derive(Debug, Clone, PartialEq)]
pub enum ImageSource {
    Base64(Base64ImageSource),
    Url(UrlImageSource),
}

/// A block holding an image.
#[derive(Debug, Clone, PartialEq)]
pub struct ImageBlockParam {
    pub source: ImageSource,
    pub cache_control: Option<CacheControl>,
    pub kind: String,
}

impl ImageBlockParam {
    /// An image block of `source`.
    pub fn new(source: ImageSource, cache_control: Option<CacheControl>) -> (r: Self)
        ensures
            r.source == source && r.cache_control == cache_control && r.kind@ == "image"@,
    {
        ImageBlockParam { source, cache_control, kind: "image".to_owned() }
    }

    /// A copy of this block.
    pub fn duplicate(&self) -> (r: Self)
        ensures
            r == *self,
    {
        ImageBlockParam {
            source: match &self.source {
                ImageSource::Base64(s) => ImageSource::Base64(
                    Base64ImageSource {
                        media_type: s.media_type.clone(),
                        data: s.data.clone(),
                        kind: s.kind.clone(),
                    },
                ),
                ImageSource::Url(s) => ImageSource::Url(
                    UrlImageSource { url: s.url.clone(), kind: s.kind.clone() },
                ),
            },
            cache_control: clone_cache(&self.cache_control),
            kind: self.kind.clone(),
        }
    }
}

/// A PDF given as base64 text.
#[derive(Debug, Clone, PartialEq)]
pub struct Base64PDFSource {
    pub media_type: String,
    pub data: String,
    pub kind: String,
}

impl Base64PDFSource {
    /// A PDF document given as base64 `data`; it never fails.
    pub fn new(data: String) -> (r: Result<Self, TypeError>)
        ensures
            r matches Ok(s) && s.data == data && s.media_type@ == "application/pdf"@ && s.kind@
                == "base64"@,
    {
        Ok(Base64PDFSource { media_type: "application/pdf".to_owned(), data, kind: "base64".to_owned() })
    }
}

/// A PDF at a URL.
#[derive(Debug, Clone, PartialEq)]
pub struct UrlPDFSource {
    pub url: String,
    pub kind: String,
}

impl UrlPDFSource {
    /// A PDF document at `url`.
    pub fn new(url: String) -> (r: Self)
        ensures
            r.url == url && r.kind@ == "url"@,
    {
        UrlPDFSource { url, kind: "url".to_owned() }
    }
}

/// A document given as plain text.
#[derive(Debug, Clone, PartialEq)]
pub struct PlainTextSource {
    pub media_type: String,
    pub data: String,
    pub kind: String,
}

impl PlainTextSource {
    /// A plain-text document of `data`.
    pub fn new(data: String) -> (r: Self)
        ensures
            r.data == data && r.media_type@ == "text/plain"@ && r.kind@ == "text"@,
    {
        PlainTextSource { media_type: "text/plain".to_owned(), data, kind: "text".to_owned() }
    }
}

/// Whether citations are enabled for a document.
#[derive(Debug, Clone, Copy, PartialEq, Eq, Structural)]
pub struct CitationsConfigParams {
    pub enabled: Option<bool>,
}

/// Where a document comes from.
#[derive(Debug, Clone, PartialEq)]
pub enum DocumentSource {
    Base64(Base64PDFSource),
    Url(UrlPDFSource),
    Text(PlainTextSource),
}

/// A block holding a document.
#[derive(Debug, Clone, PartialEq)]
pub struct DocumentBlockParam {
    pub source: DocumentSource,
    pub cache_control: Option<CacheControl>,
    pub title: Option<String>,
    pub context: Option<String>,
    pub kind: String,
    pub citations: Option<CitationsConfigParams>,
}

impl DocumentBlockParam {
    /// A document block of `source`.
    pub fn new(
        source: DocumentSource,
        cache_control: Option<CacheControl>,
        title: Option<String>,
        context: Option<String>,
        citations: Option<CitationsConfigParams>,
    ) -> (r: Self)
        ensures
            r.source == source && r.cache_control == cache_control && r.title == title && r.context
                == context && r.citations == citations && r.kind@ == "document"@,
    {
        DocumentBlockParam { source, cache_control, title, context, kind: "document".to_owned(), citations }
    }

    /// A copy of this block.
    pub fn duplicate(&self) -> (r: Self)
        ensures
            r == *self,
    {
        DocumentBlockParam {
            source: match &self.source {
                DocumentSource::Base64(s) => DocumentSource::Base64(
                    Base64PDFSource {
                        media_type: s.media_type.clone(),
                        data: s.data.clone(),
                        kind: s.kind.clone(),
                    },
                ),
                DocumentSource::Url(s) => DocumentSource::Url(
                    UrlPDFSource { url: s.url.clone(), kind: s.kind.clone() },
                ),
                DocumentSource::Text(s) => DocumentSource::Text(
                    PlainTextSource {
                        media_type: s.media_type.clone(),
                        data: s.data.clone(),
                        kind: s.kind.clone(),
                    },
                ),
            },
            cache_control: clone_cache(&self.cache_control),
            title: clone_opt_str(&self.title),
            context: clone_opt_str(&self.context),
            kind: self.kind.clone(),
            citations: self.citations,
        }
    }
}


/// A copy of a list of image blocks.
pub fn clone_image_blocks(v: &Vec<ImageBlockParam>) -> (r: Vec<ImageBlockParam>)
    ensures
        r@ == v@,
{
    let mut out: Vec<ImageBlockParam> = Vec::new();
    let mut i: usize = 0;
    while i < v.len()
        invariant
            i <= v@.len(),
            out@ == v@.take(i as int),
        decreases v@.len() - i,
    {
        out.push(v[i].duplicate());
        proof {
            assert(v@.take(i + 1) =~= v@.take(i as int).push(v@[i as int]));
        }
        i = i + 1;
    }
    proof {
        assert(v@.take(i as int) =~= v@);
    }
    out
}

/// A copy of a list of document blocks.
pub fn clone_document_blocks(v: &Vec<DocumentBlockParam>) -> (r: Vec<DocumentBlockParam>)
    ensures
        r@ == v@,
{
    let mut out: Vec<DocumentBlockParam> = Vec::new();
    let mut i: usize = 0;
    while i < v.len()
        invariant
            i <= v@.len(),
            out@ == v@.take(i as int),
        decreases v@.len() - i,
    {
        out.push(v[i].duplicate());
        proof {
            assert(v@.take(i + 1) =~= v@.take(i as int).push(v@[i as int]));
        }
        i = i + 1;
    }
    proof {
        assert(v@.take(i as int) =~= v@);
    }
    out
}

/// A block holding a search result with its text.
#[derive(Debug, Clone, PartialEq)]
pub struct SearchResultBlockParam {
    pub content: Vec<TextBlockParam>,
    pub source: String,
    pub title: String,
    pub kind: String,
    pub cache_control: Option<CacheControl>,
    pub citations: Option<CitationsConfigParams>,
}

/// Two search result blocks hold the same values.
pub open spec fn same_search_result(a: SearchResultBlockParam, b: SearchResultBlockParam) -> bool {
    a.content@ == b.content@ && a.source == b.source && a.title == b.title && a.kind == b.kind
        && a.cache_control == b.cache_control && a.citations == b.citations
}

impl SearchResultBlockParam {
    /// A search result block of the given text blocks.
    pub fn new(
        content: Vec<TextBlockParam>,
        source: String,
        title: String,
        cache_control: Option<CacheControl>,
        citations: Option<CitationsConfigParams>,
    ) -> (r: Self)
        ensures
            r.content == content && r.source == source && r.title == title && r.cache_control
                == cache_control && r.citations == citations && r.kind@ == "search_result"@,
    {
        SearchResultBlockParam { content, source, title, kind: "search_result".to_owned(), cache_control, citations }
    }

    /// A copy of this block.
    pub fn duplicate(&self) -> (r: Self)
        ensures
            same_search_result(*self, r),
    {
        SearchResultBlockParam {
            content: clone_text_blocks(&self.content),
            source: self.source.clone(),
            title: self.title.clone(),
            kind: self.kind.clone(),
            cache_control: clone_cache(&self.cache_control),
            citations: self.citations,
        }
    }
}

/// Two lists of search result blocks hold the same values, in order.
pub open spec fn same_search_results(a: Seq<SearchResultBlockParam>, b: Seq<SearchResultBlockParam>) -> bool {
    a.len() == b.len() && forall|i: int| 0 <= i < a.len() ==> same_search_result(#[trigger] a[i], b[i])
}

/// A copy of a list of search result blocks.
pub fn clone_search_results(v: &Vec<SearchResultBlockParam>) -> (r: Vec<SearchResultBlockParam>)
    ensures
        same_search_results(v@, r@),
{
    let mut out: Vec<SearchResultBlockParam> = Vec::new();
    let mut i: usize = 0;
    while i < v.len()
        invariant
            i <= v@.len(),
            out@.len() == i,
            forall|k: int| 0 <= k < i ==> same_search_result(#[trigger] v@[k], out@[k]),
        decreases v@.len() - i,
    {
        out.push(v[i].duplicate());
        i = i + 1;
    }
    out
}

/// A block holding the model's reasoning.
#[derive(Debug, Clone, PartialEq)]
pub struct ThinkingBlockParam {
    pub thinking: String,
    pub signature: Option<String>,
    pub kind: String,
}

impl ThinkingBlockParam {
    /// A block of the model's reasoning.
    pub fn new(thinking: String, signature: Option<String>) -> (r: Self)
        ensures
            r.thinking == thinking && r.signature == signature && r.kind@ == "thinking"@,
    {
        ThinkingBlockParam { thinking, signature, kind: "thinking".to_owned() }
    }
}

/// A block holding reasoning that the provider has hidden.
#[derive(Debug, Clone, PartialEq)]
pub struct RedactedThinkingBlockParam {
    pub data: String,
    pub kind: String,
}

impl RedactedThinkingBlockParam {
    /// A block of hidden reasoning.
    pub fn new(data: String) -> (r: Self)
        ensures
            r.data == data && r.kind@ == "redacted_thinking"@,
    {
        RedactedThinkingBlockParam { data, kind: "redacted_thinking".to_owned() }
    }
}

/// A block in which the model calls a tool.
#[derive(Debug, PartialEq)]
pub struct ToolUseBlockParam {
    pub id: String,
    pub name: String,
    pub input: Json,
    pub cache_control: Option<CacheControl>,
    pub kind: String,
}

/// Two tool use blocks hold the same values.
pub open spec fn same_tool_use(a: ToolUseBlockParam, b: ToolUseBlockParam) -> bool {
    a.id == b.id && a.name == b.name && a.input.view() == b.input.view() && a.cache_control
        == b.cache_control && a.kind == b.kind
}

impl ToolUseBlockParam {
    /// A block in which the model calls a tool.
    pub fn new(id: String, name: String, input: Json, cache_control: Option<CacheControl>) -> (r: Self)
        ensures
            r.id == id && r.name == name && r.input == input && r.cache_control == cache_control
                && r.kind@ == "tool_use"@,
    {
        ToolUseBlockParam { id, name, input, cache_control, kind: "tool_use".to_owned() }
    }

    /// A copy of this block.
    pub fn duplicate(&self) -> (r: Self)
        ensures
            same_tool_use(*self, r),
    {
        ToolUseBlockParam {
            id: self.id.clone(),
            name: self.name.clone(),
            input: self.input.cloned(),
            cache_control: clone_cache(&self.cache_control),
            kind: self.kind.clone(),
        }
    }
}

/// The content of a tool result: blocks of one kind.
#[derive(Debug, Clone, PartialEq)]
pub enum ToolResultContentEnum {
    Text(Vec<TextBlockParam>),
    Image(Vec<ImageBlockParam>),
    Document(Vec<DocumentBlockParam>),
    SearchResult(Vec<SearchResultBlockParam>),
}

/// Two tool result contents hold the same values.
pub open spec fn same_tool_result_content(a: ToolResultContentEnum, b: ToolResultContentEnum) -> bool {
    match (a, b) {
        (ToolResultContentEnum::Text(x), ToolResultContentEnum::Text(y)) => x@ == y@,
        (ToolResultContentEnum::Image(x), ToolResultContentEnum::Image(y)) => x@ == y@,
        (ToolResultContentEnum::Document(x), ToolResultContentEnum::Document(y)) => x@ == y@,
        (ToolResultContentEnum::SearchResult(x), ToolResultContentEnum::SearchResult(y)) => same_search_results(x@, y@),
        _ => false,
    }
}

impl ToolResultContentEnum {
    /// A copy of this content.
    pub fn duplicate(&self) -> (r: Self)
        ensures
            same_tool_result_content(*self, r),
    {
        match self {
            ToolResultContentEnum::Text(v) => ToolResultContentEnum::Text(clone_text_blocks(v)),
            ToolResultContentEnum::Image(v) => ToolResultContentEnum::Image(clone_image_blocks(v)),
            ToolResultContentEnum::Document(v) => ToolResultContentEnum::Document(clone_document_blocks(v)),
            ToolResultContentEnum::SearchResult(v) => ToolResultContentEnum::SearchResult(clone_search_results(v)),
        }
    }
}

/// One item given as the content of a tool result: a block of one of the
/// kinds that a tool result holds, or something else.
#[derive(Debug, Clone, PartialEq)]
pub enum ToolResultItem {
    Text(TextBlockParam),
    Image(ImageBlockParam),
    Document(DocumentBlockParam),
    SearchResult(SearchResultBlockParam),
    Other,
}

/// The block of a tool result.
#[derive(Debug, Clone, PartialEq)]
pub struct ToolResultBlockParam {
    pub tool_use_id: String,
    pub is_error: Option<bool>,
    pub cache_control: Option<CacheControl>,
    pub kind: String,
    pub content: Option<ToolResultContentEnum>,
}

/// Two tool result blocks hold the same values.
pub open spec fn same_tool_result(a: ToolResultBlockParam, b: ToolResultBlockParam) -> bool {
    a.tool_use_id == b.tool_use_id && a.is_error == b.is_error && a.cache_control == b.cache_control
        && a.kind == b.kind && match (a.content, b.content) {
        (None, None) => true,
        (Some(x), Some(y)) => same_tool_result_content(x, y),
        _ => false,
    }
}

/// The items are text blocks, and `blocks` holds them in order.
pub open spec fn text_items(items: Seq<ToolResultItem>, blocks: Seq<TextBlockParam>) -> bool {
    items.len() == blocks.len() && forall|i: int| 0 <= i < items.len() ==> #[trigger] items[i] == ToolResultItem::Text(blocks[i])
}

/// The items are image blocks, and `blocks` holds them in order.
pub open spec fn image_items(items: Seq<ToolResultItem>, blocks: Seq<ImageBlockParam>) -> bool {
    items.len() == blocks.len() && forall|i: int| 0 <= i < items.len() ==> #[trigger] items[i] == ToolResultItem::Image(blocks[i])
}

/// The items are document blocks, and `blocks` holds them in order.
pub open spec fn document_items(items: Seq<ToolResultItem>, blocks: Seq<DocumentBlockParam>) -> bool {
    items.len() == blocks.len() && forall|i: int| 0 <= i < items.len() ==> #[trigger] items[i] == ToolResultItem::Document(blocks[i])
}

/// The items are search result blocks, and `blocks` holds them in order.
pub open spec fn search_items(items: Seq<ToolResultItem>, blocks: Seq<SearchResultBlockParam>) -> bool {
    items.len() == blocks.len() && forall|i: int|
        0 <= i < items.len() ==> (#[trigger] items[i] matches ToolResultItem::SearchResult(b) && same_search_result(b, blocks[i]))
}

/// The kind of an item, as a number: text, image, document, search result, other.
pub open spec fn item_kind(item: ToolResultItem) -> int {
    match item {
        ToolResultItem::Text(_) => 0,
        ToolResultItem::Image(_) => 1,
        ToolResultItem::Document(_) => 2,
        ToolResultItem::SearchResult(_) => 3,
        ToolResultItem::Other => 4,
    }
}

/// All items are of the kind of the first.
pub open spec fn items_uniform(items: Seq<ToolResultItem>) -> bool {
    forall|i: int| 0 <= i < items.len() ==> item_kind(#[trigger] items[i]) == item_kind(items[0])
}

impl ToolResultBlockParam {
    /// A tool result block. The first item decides the kind of content; an
    /// item of another kind fails with `Error`, and a first item of none of
    /// the four kinds fails with `InvalidInput`. No items, or an empty list,
    /// give no content.
    pub fn new(
        tool_use_id: String,
        is_error: Option<bool>,
        cache_control: Option<CacheControl>,
        content: Option<Vec<ToolResultItem>>,
    ) -> (r: Result<Self, TypeError>)
        ensures
            match content {
                None => r matches Ok(b) && b.content is None,
                Some(items) => if items@.len() == 0 {
                    r matches Ok(b) && b.content is None
                } else if item_kind(items@[0]) == 4 {
                    r matches Err(TypeError::InvalidInput(m)) && m@ == "Unsupported content block type"@
                } else if !items_uniform(items@) {
                    r matches Err(TypeError::Error(m)) && m@ == "Failed to extract block"@
                } else {
                    r matches Ok(b) && match b.content {
                        Some(ToolResultContentEnum::Text(v)) => item_kind(items@[0]) == 0 && text_items(items@, v@),
                        Some(ToolResultContentEnum::Image(v)) => item_kind(items@[0]) == 1 && image_items(items@, v@),
                        Some(ToolResultContentEnum::Document(v)) => item_kind(items@[0]) == 2 && document_items(items@, v@),
                        Some(ToolResultContentEnum::SearchResult(v)) => item_kind(items@[0]) == 3 && search_items(items@, v@),
                        None => false,
                    }
                },
            },
            r matches Ok(b) ==> b.tool_use_id == tool_use_id && b.is_error == is_error && b.cache_control
                == cache_control && b.kind@ == "tool_result"@,
    {
        let content_enum = match content {
            None => None,
            Some(items) => {
                if items.len() == 0 {
                    None
                } else {
                    let ghost iv = items@;
                    let k = match &items[0] {
                        ToolResultItem::Text(_) => 0u8,
                        ToolResultItem::Image(_) => 1u8,
                        ToolResultItem::Document(_) => 2u8,
                        ToolResultItem::SearchResult(_) => 3u8,
                        ToolResultItem::Other => 4u8,
                    };
                    if k == 4 {
                        return Err(TypeError::InvalidInput("Unsupported content block type".to_owned()));
                    }
                    let mut texts: Vec<TextBlockParam> = Vec::new();
                    let mut images: Vec<ImageBlockParam> = Vec::new();
                    let mut docs: Vec<DocumentBlockParam> = Vec::new();
                    let mut searches: Vec<SearchResultBlockParam> = Vec::new();
                    let mut rest = items;
                    let ghost n = iv.len();
                    while rest.len() > 0
                        invariant
                            rest@.len() <= n,
                            content matches Some(it) && it@ == iv,
                            n == iv.len(),
                            n > 0,
                            k as int == item_kind(iv[0]),
                            k < 4,
                            rest@ == iv.skip(n - rest@.len()),
                            forall|j: int| 0 <= j < n - rest@.len() ==> item_kind(#[trigger] iv[j]) == k as int,
                            k == 0 ==> text_items(iv.take(n - rest@.len()), texts@),
                            k == 1 ==> image_items(iv.take(n - rest@.len()), images@),
                            k == 2 ==> document_items(iv.take(n - rest@.len()), docs@),
                            k == 3 ==> search_items(iv.take(n - rest@.len()), searches@),
                        decreases rest@.len(),
                    {
                        let ghost m = n - rest@.len();
                        let item = rest.remove(0);
                        proof {
                            assert(item == iv[m]);
                            assert(iv.take(m + 1) =~= iv.take(m).push(iv[m]));
                        }
                        match item {
                            ToolResultItem::Text(b) => {
                                if k != 0 {
                                    proof { assert(item_kind(iv[m]) != item_kind(iv[0])); }
                                    return Err(TypeError::Error("Failed to extract block".to_owned()));
                                }
                                texts.push(b);
                            },
                            ToolResultItem::Image(b) => {
                                if k != 1 {
                                    proof { assert(item_kind(iv[m]) != item_kind(iv[0])); }
                                    return Err(TypeError::Error("Failed to extract block".to_owned()));
                                }
                                images.push(b);
                            },
                            ToolResultItem::Document(b) => {
                                if k != 2 {
                                    proof { assert(item_kind(iv[m]) != item_kind(iv[0])); }
                                    return Err(TypeError::Error("Failed to extract block".to_owned()));
                                }
                                docs.push(b);
                            },
                            ToolResultItem::SearchResult(b) => {
                                if k != 3 {
                                    proof { assert(item_kind(iv[m]) != item_kind(iv[0])); }
                                    return Err(TypeError::Error("Failed to extract block".to_owned()));
                                }
                                searches.push(b);
                            },
                            ToolResultItem::Other => {
                                proof { assert(item_kind(iv[m]) != item_kind(iv[0])); }
                                return Err(TypeError::Error("Failed to extract block".to_owned()));
                            },
                        }
                    }
                    proof {
                        assert(iv.take(n as int) =~= iv);
                    }
                    if k == 0 {
                        Some(ToolResultContentEnum::Text(texts))
                    } else if k == 1 {
                        Some(ToolResultContentEnum::Image(images))
                    } else if k == 2 {
                        Some(ToolResultContentEnum::Document(docs))
                    } else {
                        Some(ToolResultContentEnum::SearchResult(searches))
                    }
                }
            },
        };
        Ok(ToolResultBlockParam {
            tool_use_id,
            is_error,
            cache_control,
            kind: "tool_result".to_owned(),
            content: content_enum,
        })
    }

    /// A copy of this block.
    pub fn duplicate(&self) -> (r: Self)
        ensures
            same_tool_result(*self, r),
    {
        ToolResultBlockParam {
            tool_use_id: self.tool_use_id.clone(),
            is_error: self.is_error,
            cache_control: clone_cache(&self.cache_control),
            kind: self.kind.clone(),
            content: match &self.content {
                Some(c) => Some(c.duplicate()),
                None => None,
            },
        }
    }
}

/// A block in which the model calls a tool that the provider runs.
#[derive(Debug, PartialEq)]
pub struct ServerToolUseBlockParam {
    pub id: String,
    pub name: String,
    pub input: Json,
    pub cache_control: Option<CacheControl>,
    pub kind: String,
}

/// Two server tool use blocks hold the same values.
pub open spec fn same_server_tool_use(a: ServerToolUseBlockParam, b: ServerToolUseBlockParam) -> bool {
    a.id == b.id && a.name == b.name && a.input.view() == b.input.view() && a.cache_control
        == b.cache_control && a.kind == b.kind
}

impl ServerToolUseBlockParam {
    /// A block in which the model calls a tool that the provider runs.
    pub fn new(id: String, name: String, input: Json, cache_control: Option<CacheControl>) -> (r: Self)
        ensures
            r.id == id && r.name == name && r.input == input && r.cache_control == cache_control
                && r.kind@ == "server_tool_use"@,
    {
        ServerToolUseBlockParam { id, name, input, cache_control, kind: "server_tool_use".to_owned() }
    }

    /// A copy of this block.
    pub fn duplicate(&self) -> (r: Self)
        ensures
            same_server_tool_use(*self, r),
    {
        ServerToolUseBlockParam {
            id: self.id.clone(),
            name: self.name.clone(),
            input: self.input.cloned(),
            cache_control: clone_cache(&self.cache_control),
            kind: self.kind.clone(),
        }
    }
}

/// A web search result.
#[derive(Debug, Clone, PartialEq)]
pub struct WebSearchResultBlockParam {
    pub encrypted_content: String,
    pub title: String,
    pub url: String,
    pub page_agent: Option<String>,
    pub kind: String,
}

impl WebSearchResultBlockParam {
    /// A web search result.
    pub fn new(encrypted_content: String, title: String, url: String, page_agent: Option<String>) -> (r: Self)
        ensures
            r.encrypted_content == encrypted_content && r.title == title && r.url == url
                && r.page_agent == page_agent && r.kind@ == "web_search_result"@,
    {
        WebSearchResultBlockParam { encrypted_content, title, url, page_agent, kind: "web_search_result".to_owned() }
    }

    /// A copy of this block.
    pub fn duplicate(&self) -> (r: Self)
        ensures
            r == *self,
    {
        WebSearchResultBlockParam {
            encrypted_content: self.encrypted_content.clone(),
            title: self.title.clone(),
            url: self.url.clone(),
            page_agent: clone_opt_str(&self.page_agent),
            kind: self.kind.clone(),
        }
    }
}

/// The results of a web search tool call.
#[derive(Debug, Clone, PartialEq)]
pub struct WebSearchToolResultBlockParam {
    pub tool_use_id: String,
    pub content: Vec<WebSearchResultBlockParam>,
    pub cache_control: Option<CacheControl>,
    pub kind: String,
}

impl WebSearchToolResultBlockParam {
    /// The results of a web search tool call.
    pub fn new(tool_use_id: String, content: Vec<WebSearchResultBlockParam>, cache_control: Option<CacheControl>) -> (r: Self)
        ensures
            r.tool_use_id == tool_use_id && r.content == content && r.cache_control == cache_control
                && r.kind@ == "web_search_tool_result"@,
    {
        WebSearchToolResultBlockParam { tool_use_id, content, cache_control, kind: "web_search_tool_result".to_owned() }
    }
}

/// A block of a message.
#[derive(Debug, PartialEq)]
pub enum ContentBlock {
    Text(TextBlockParam),
    Image(ImageBlockParam),
    Document(DocumentBlockParam),
    SearchResult(SearchResultBlockParam),
    Thinking(ThinkingBlockParam),
    RedactedThinking(RedactedThinkingBlockParam),
    ToolUse(ToolUseBlockParam),
    ToolResult(ToolResultBlockParam),
    ServerToolUse(ServerToolUseBlockParam),
    WebSearchResult(WebSearchResultBlockParam),
}

/// Two blocks hold the same values.
pub open spec fn same_block(a: ContentBlock, b: ContentBlock) -> bool {
    match (a, b) {
        (ContentBlock::SearchResult(x), ContentBlock::SearchResult(y)) => same_search_result(x, y),
        (ContentBlock::ToolUse(x), ContentBlock::ToolUse(y)) => same_tool_use(x, y),
        (ContentBlock::ToolResult(x), ContentBlock::ToolResult(y)) => same_tool_result(x, y),
        (ContentBlock::ServerToolUse(x), ContentBlock::ServerToolUse(y)) => same_server_tool_use(x, y),
        (ContentBlock::SearchResult(_), _) => false,
        (ContentBlock::ToolUse(_), _) => false,
        (ContentBlock::ToolResult(_), _) => false,
        (ContentBlock::ServerToolUse(_), _) => false,
        _ => a == b,
    }
}

/// A block of a message, as it is sent to the provider.
#[derive(Debug, PartialEq)]
pub struct ContentBlockParam {
    pub inner: ContentBlock,
}

impl ContentBlockParam {
    /// A copy of this block.
    pub fn duplicate(&self) -> (r: Self)
        ensures
            same_block(self.inner, r.inner),
    {
        let inner = match &self.inner {
            ContentBlock::Text(b) => ContentBlock::Text(b.duplicate()),
            ContentBlock::Image(b) => ContentBlock::Image(b.duplicate()),
            ContentBlock::Document(b) => ContentBlock::Document(b.duplicate()),
            ContentBlock::SearchResult(b) => ContentBlock::SearchResult(b.duplicate()),
            ContentBlock::Thinking(b) => ContentBlock::Thinking(
                ThinkingBlockParam {
                    thinking: b.thinking.clone(),
                    signature: clone_opt_str(&b.signature),
                    kind: b.kind.clone(),
                },
            ),
            ContentBlock::RedactedThinking(b) => ContentBlock::RedactedThinking(
                RedactedThinkingBlockParam { data: b.data.clone(), kind: b.kind.clone() },
            ),
            ContentBlock::ToolUse(b) => ContentBlock::ToolUse(b.duplicate()),
            ContentBlock::ToolResult(b) => ContentBlock::ToolResult(b.duplicate()),
            ContentBlock::ServerToolUse(b) => ContentBlock::ServerToolUse(b.duplicate()),
            ContentBlock::WebSearchResult(b) => ContentBlock::WebSearchResult(b.duplicate()),
        };
        ContentBlockParam { inner }
    }
}

/// A message of a conversation with an Anthropic model.
#[derive(Debug, PartialEq)]
pub struct MessageParam {
    pub content: Vec<ContentBlockParam>,
    pub role: String,
}

/// Two messages hold the same values.
pub open spec fn same_message(a: MessageParam, b: MessageParam) -> bool {
    a.role == b.role && a.content@.len() == b.content@.len() && forall|i: int|
        0 <= i < a.content@.len() ==> same_block(#[trigger] a.content@[i].inner, b.content@[i].inner)
}

/// `b` is the block `a` with `${name}` replaced by `value` in its text, if it is a
/// text block, and otherwise the same block.
pub open spec fn bound_block(a: ContentBlock, b: ContentBlock, name: Seq<char>, value: Seq<char>) -> bool {
    match a {
        ContentBlock::Text(t) => b matches ContentBlock::Text(u) && u.text@ == replace_all(
            t.text@,
            placeholder(name),
            value,
        ) && u.cache_control == t.cache_control && u.citations == t.citations && u.kind == t.kind,
        _ => same_block(a, b),
    }
}

/// `b` is the message `a` with `${name}` bound to `value` in its text blocks.
pub open spec fn bound_message(a: MessageParam, b: MessageParam, name: Seq<char>, value: Seq<char>) -> bool {
    a.role == b.role && a.content@.len() == b.content@.len() && forall|i: int|
        0 <= i < a.content@.len() ==> bound_block(#[trigger] a.content@[i].inner, b.content@[i].inner, name, value)
}

/// The texts of the text blocks among `blocks`, in order.
pub open spec fn block_texts(blocks: Seq<ContentBlockParam>) -> Seq<Seq<char>>
    decreases blocks.len(),
{
    if blocks.len() == 0 {
        Seq::empty()
    } else {
        let rest = block_texts(blocks.drop_last());
        match blocks.last().inner {
            ContentBlock::Text(t) => rest.push(t.text@),
            _ => rest,
        }
    }
}

/// The text of the first text block among `blocks`, or the empty text.
pub open spec fn first_block_text(blocks: Seq<ContentBlockParam>) -> Seq<char>
    decreases blocks.len(),
{
    if blocks.len() == 0 {
        Seq::empty()
    } else {
        match blocks[0].inner {
            ContentBlock::Text(t) => t.text@,
            _ => first_block_text(blocks.drop_first()),
        }
    }
}

impl MessageParam {
    /// A copy of this message.
    pub fn duplicate(&self) -> (r: Self)
        ensures
            same_message(*self, r),
    {
        let mut content: Vec<ContentBlockParam> = Vec::new();
        let mut i: usize = 0;
        while i < self.content.len()
            invariant
                i <= self.content@.len(),
                content@.len() == i,
                forall|k: int| 0 <= k < i ==> same_block(#[trigger] self.content@[k].inner, content@[k].inner),
            decreases self.content@.len() - i,
        {
            content.push(self.content[i].duplicate());
            i = i + 1;
        }
        MessageParam { content, role: self.role.clone() }
    }

    /// A message of one text block.
    pub fn from_text(content: String, role: &str) -> (r: Result<Self, TypeError>)
        ensures
            r matches Ok(m) && m.role@ == role@ && m.content@.len() == 1 && (m.content@[0].inner matches ContentBlock::Text(t)
                && t.text == content && t.cache_control is None && t.citations is None && t.kind@ == "text"@),
    {
        let block = ContentBlockParam { inner: ContentBlock::Text(TextBlockParam::new_rs(content, None, None)) };
        let mut v: Vec<ContentBlockParam> = Vec::new();
        v.push(block);
        Ok(MessageParam { content: v, role: role.to_owned() })
    }

    /// Replaces `${name}` with `value` in the text blocks.
    pub fn bind_mut(&mut self, name: &str, value: &str) -> (r: Result<(), TypeError>)
        ensures
            r is Ok,
            bound_message(*old(self), *final(self), name@, value@),
    {
        let mut i: usize = 0;
        while i < self.content.len()
            invariant
                i <= self.content@.len(),
                self.content@.len() == old(self).content@.len(),
                self.role == old(self).role,
                forall|k: int| 0 <= k < i ==> bound_block(#[trigger] old(self).content@[k].inner, self.content@[k].inner, name@, value@),
                forall|k: int| i <= k < self.content@.len() ==> #[trigger] self.content@[k] == old(self).content@[k],
            decreases self.content@.len() - i,
        {
            let replaced = match &self.content[i].inner {
                ContentBlock::Text(t) => Some(
                    TextBlockParam {
                        text: replace_placeholder(t.text.as_str(), name, value),
                        cache_control: clone_cache(&t.cache_control),
                        citations: match &t.citations {
                            Some(c) => Some(c.duplicate()),
                            None => None,
                        },
                        kind: t.kind.clone(),
                    },
                ),
                _ => None,
            };
            match replaced {
                Some(t) => {
                    self.content.set(i, ContentBlockParam { inner: ContentBlock::Text(t) });
                },
                None => {},
            }
            i = i + 1;
        }
        Ok(())
    }

    /// A copy of this message with `${name}` replaced by `value` in its text blocks.
    pub fn bind(&self, name: &str, value: &str) -> (r: Result<Self, TypeError>)
        ensures
            r matches Ok(m) && bound_message(*self, m, name@, value@),
    {
        let mut m = self.duplicate();
        let ghost d = m;
        let _ = m.bind_mut(name, value);
        proof {
            assert forall|k: int| 0 <= k < self.content@.len() implies bound_block(#[trigger] self.content@[k].inner, m.content@[k].inner, name@, value@) by {
                assert(same_block(self.content@[k].inner, d.content@[k].inner));
                assert(bound_block(d.content@[k].inner, m.content@[k].inner, name@, value@));
            }
        }
        Ok(m)
    }

    /// The texts of the text blocks, in order.
    pub fn texts(&self) -> (r: Vec<String>)
        ensures
            sv(r@) == block_texts(self.content@),
    {
        let mut out: Vec<String> = Vec::new();
        let mut i: usize = 0;
        while i < self.content.len()
            invariant
                i <= self.content@.len(),
                sv(out@) == block_texts(self.content@.take(i as int)),
            decreases self.content@.len() - i,
        {
            proof {
                assert(self.content@.take(i + 1).drop_last() =~= self.content@.take(i as int));
            }
            match &self.content[i].inner {
                ContentBlock::Text(t) => {
                    let ghost o = out@;
                    out.push(t.text.clone());
                    proof {
                        assert(sv(out@) =~= sv(o).push(t.text@));
                    }
                },
                _ => {},
            }
            i = i + 1;
        }
        proof {
            assert(self.content@.take(i as int) =~= self.content@);
        }
        out
    }

    /// The distinct names of the variables `${name}` in the text blocks.
    pub fn extract_variables(&self) -> (r: Vec<String>)
        ensures
            sv(r@).no_duplicates(),
            forall|x: Seq<char>| #[trigger] sv(r@).contains(x) <==> vars_of_texts(block_texts(self.content@)).contains(x),
    {
        let t = self.texts();
        variables_of_texts(&t)
    }

    /// The text of the first text block, or the empty text when there is none.
    pub fn text(&self) -> (r: String)
        ensures
            r@ == first_block_text(self.content@),
    {
        let mut i: usize = 0;
        assert(self.content@.skip(0) =~= self.content@);
        while i < self.content.len()
            invariant
                i <= self.content@.len(),
                first_block_text(self.content@) == first_block_text(self.content@.skip(i as int)),
            decreases self.content@.len() - i,
        {
            proof {
                assert(self.content@.skip(i as int).drop_first() =~= self.content@.skip(i + 1));
            }
            match &self.content[i].inner {
                ContentBlock::Text(t) => {
                    return t.text.clone();
                },
                _ => {},
            }
            i = i + 1;
        }
        String::new()
    }

    /// The one text block of a message that holds exactly one block, which is text.
    pub fn to_text_block_param(&self) -> (r: Result<TextBlockParam, TypeError>)
        ensures
            self.content@.len() != 1 ==> (r matches Err(TypeError::InvalidInput(m)) && m@
                == "MessageParam must contain exactly one content block to convert to TextBlockParam"@),
            self.content@.len() == 1 ==> match self.content@[0].inner {
                ContentBlock::Text(t) => r == Ok::<TextBlockParam, TypeError>(t),
                _ => r matches Err(TypeError::InvalidInput(m)) && m@ == "Content block is not of type TextBlockParam"@,
            },
    {
        if self.content.len() != 1 {
            return Err(
                TypeError::InvalidInput(
                    "MessageParam must contain exactly one content block to convert to TextBlockParam".to_owned(),
                ),
            );
        }
        match &self.content[0].inner {
            ContentBlock::Text(t) => Ok(t.duplicate()),
            _ => Err(TypeError::InvalidInput("Content block is not of type TextBlockParam".to_owned())),
        }
    }
}

/// How the model may choose tools.
#[derive(Debug, Clone, PartialEq)]
pub struct ToolChoice {
    pub kind: String,
    pub disable_parallel_tool_use: Option<bool>,
    pub name: Option<String>,
}

impl ToolChoice {
    /// A tool choice; a name is given exactly when the kind is `tool`.
    pub fn new(kind: String, disable_parallel_tool_use: Option<bool>, name: Option<String>) -> (r: Result<Self, UtilError>)
        ensures
            (name is Some && kind@ != "tool"@) ==> (r matches Err(UtilError::PyError(m)) && m@
                == "ToolChoice name can only be set if type is 'tool'"@),
            (name is None && kind@ == "tool"@) ==> (r matches Err(UtilError::PyError(m)) && m@
                == "ToolChoice of type 'tool' requires a name"@),
            ((name is Some) == (kind@ == "tool"@)) ==> r == Ok::<ToolChoice, UtilError>(ToolChoice { kind, disable_parallel_tool_use, name }),
    {
        let is_tool = str_eq(kind.as_str(), "tool");
        match &name {
            Some(_) => {
                if !is_tool {
                    return Err(UtilError::PyError("ToolChoice name can only be set if type is 'tool'".to_owned()));
                }
            },
            None => {
                if is_tool {
                    return Err(UtilError::PyError("ToolChoice of type 'tool' requires a name".to_owned()));
                }
            },
        }
        Ok(ToolChoice { kind, disable_parallel_tool_use, name })
    }
}

/// A tool that the model may call.
#[derive(Debug, PartialEq)]
pub struct AnthropicTool {
    pub name: String,
    pub description: Option<String>,
    pub input_schema: Json,
    pub cache_control: Option<CacheControl>,
}

impl AnthropicTool {
    /// A tool of the given values; it never fails.
    pub fn new(name: String, description: Option<String>, input_schema: Json, cache_control: Option<CacheControl>) -> (r: Result<Self, UtilError>)
        ensures
            r == Ok::<AnthropicTool, UtilError>(AnthropicTool { name, description, input_schema, cache_control }),
    {
        Ok(AnthropicTool { name, description, input_schema, cache_control })
    }

    /// The tool that offers an agent's tool to the model: its name, its
    /// description and the schema of its parameters.
    pub fn from_tool_agent_tool_definition(tool: &AgentToolDefinition) -> (r: Result<Self, TypeError>)
        ensures
            r matches Ok(t) && tool_from_definition(*tool, t),
    {
        Ok(
            AnthropicTool {
                name: tool.name.clone(),
                description: Some(tool.description.clone()),
                input_schema: tool.parameters.cloned(),
                cache_control: None,
            },
        )
    }
}

/// `t` is the Anthropic tool for the agent's tool `d`.
pub open spec fn tool_from_definition(d: AgentToolDefinition, t: AnthropicTool) -> bool {
    &&& t.name == d.name
    &&& t.description == Some(d.description)
    &&& t.input_schema.view() == d.parameters.view()
    &&& t.cache_control is None
}

/// The tools of the settings, none when there are none.
pub open spec fn settings_tools(s: AnthropicSettings) -> Seq<AnthropicTool> {
    match s.tools {
        Some(v) => v@,
        None => Seq::empty(),
    }
}

/// Who a request is made for.
#[derive(Debug, Clone, PartialEq)]
pub struct Metadata {
    pub user_id: Option<String>,
}

impl Metadata {
    /// Metadata naming `user_id`.
    pub fn new(user_id: Option<String>) -> (r: Metadata)
        ensures
            r == (Metadata { user_id }),
    {
        Metadata { user_id }
    }
}

/// The settings of a request to an Anthropic model; the sampling settings given
/// as 32-bit floating-point numbers are held as their bits.
#[derive(Debug, PartialEq)]
pub struct AnthropicSettings {
    pub max_tokens: i32,
    pub metadata: Option<Metadata>,
    pub service_tier: Option<String>,
    pub stop_sequences: Option<Vec<String>>,
    pub stream: Option<bool>,
    pub system: Option<String>,
    pub temperature_bits: Option<u32>,
    pub thinking: Option<ThinkingConfig>,
    pub top_k: Option<i32>,
    pub top_p_bits: Option<u32>,
    pub tools: Option<Vec<AnthropicTool>>,
    pub tool_choice: Option<ToolChoice>,
    pub extra_body: Option<Json>,
}

/// The settings used when none are given: at most 4096 tokens, no streaming,
/// nothing else set.
pub open spec fn anthropic_defaults() -> AnthropicSettings {
    AnthropicSettings {
        max_tokens: 4096,
        metadata: None,
        service_tier: None,
        stop_sequences: None,
        stream: Some(false),
        system: None,
        temperature_bits: None,
        thinking: None,
        top_k: None,
        top_p_bits: None,
        tools: None,
        tool_choice: None,
        extra_body: None,
    }
}

impl AnthropicSettings {
    /// Settings of the given values.
    pub fn new(
        max_tokens: i32,
        metadata: Option<Metadata>,
        service_tier: Option<String>,
        stop_sequences: Option<Vec<String>>,
        stream: Option<bool>,
        system: Option<String>,
        temperature_bits: Option<u32>,
        thinking: Option<ThinkingConfig>,
        top_k: Option<i32>,
        top_p_bits: Option<u32>,
        tools: Option<Vec<AnthropicTool>>,
        tool_choice: Option<ToolChoice>,
        extra_body: Option<Json>,
    ) -> (r: Self)
        ensures
            r == (AnthropicSettings {
                max_tokens,
                metadata,
                service_tier,
                stop_sequences,
                stream,
                system,
                temperature_bits,
                thinking,
                top_k,
                top_p_bits,
                tools,
                tool_choice,
                extra_body,
            }),
    {
        AnthropicSettings {
            max_tokens,
            metadata,
            service_tier,
            stop_sequences,
            stream,
            system,
            temperature_bits,
            thinking,
            top_k,
            top_p_bits,
            tools,
            tool_choice,
            extra_body,
        }
    }

    /// The settings used when none are given.
    pub fn default_settings() -> (r: Self)
        ensures
            r == anthropic_defaults(),
    {
        AnthropicSettings {
            max_tokens: 4096,
            metadata: None,
            service_tier: None,
            stop_sequences: None,
            stream: Some(false),
            system: None,
            temperature_bits: None,
            thinking: None,
            top_k: None,
            top_p_bits: None,
            tools: None,
            tool_choice: None,
            extra_body: None,
        }
    }

    /// Adds the agent's tools, in order, after the tools the settings hold.
    pub fn add_tools(&mut self, tools: Vec<AgentToolDefinition>) -> (r: Result<(), TypeError>)
        ensures
            r is Ok,
            final(self).tools is Some,
            settings_tools(*final(self)).len() == settings_tools(*old(self)).len() + tools@.len(),
            settings_tools(*final(self)).take(settings_tools(*old(self)).len() as int) == settings_tools(*old(self)),
            forall|i: int|
                0 <= i < tools@.len() ==> tool_from_definition(
                    tools@[i],
                    #[trigger] settings_tools(*final(self))[settings_tools(*old(self)).len() + i],
                ),
            *final(self) == (AnthropicSettings { tools: final(self).tools, ..*old(self) }),
    {
        let mut taken: Option<Vec<AnthropicTool>> = None;
        std::mem::swap(&mut taken, &mut self.tools);
        let mut current = match taken {
            Some(v) => v,
            None => Vec::new(),
        };
        let ghost before = current@;
        assert(before == settings_tools(*old(self)));
        let mut i: usize = 0;
        while i < tools.len()
            invariant
                i <= tools@.len(),
                current@.len() == before.len() + i,
                current@.take(before.len() as int) == before,
                forall|k: int| 0 <= k < i ==> tool_from_definition(tools@[k], #[trigger] current@[before.len() + k]),
            decreases tools@.len() - i,
        {
            let t = AnthropicTool::from_tool_agent_tool_definition(&tools[i])?;
            let ghost prev = current@;
            current.push(t);
            proof {
                assert(current@.take(before.len() as int) =~= prev.take(before.len() as int));
                assert forall|k: int| 0 <= k < i + 1 implies tool_from_definition(tools@[k], #[trigger] current@[before.len() + k]) by {
                    if k < i {
                        assert(current@[before.len() + k] == prev[before.len() + k]);
                    }
                }
            }
            i = i + 1;
        }
        self.tools = Some(current);
        Ok(())
    }
}

/// How much the model may think before it answers.
#[derive(Debug, Clone, PartialEq)]
pub struct ThinkingConfig {
    pub kind: String,
    pub budget_tokens: Option<i32>,
}

impl ThinkingConfig {
    /// Thinking of the kind `kind`, within `budget_tokens` when given.
    pub fn new(kind: String, budget_tokens: Option<i32>) -> (r: Self)
        ensures
            r == (ThinkingConfig { kind, budget_tokens }),
    {
        ThinkingConfig { kind, budget_tokens }
    }
}

/// An item of a list given as a system prompt: a text block, or a value of
/// another type.
#[derive(Debug, PartialEq)]
pub enum SystemPromptItem {
    Block(TextBlockParam),
    Other,
}

/// What a caller gives as a system prompt: a text, a list of items, or a value
/// of another type.
#[derive(Debug, PartialEq)]
pub enum SystemPromptInput {
    Text(String),
    List(Vec<SystemPromptItem>),
    Other,
}

/// The system prompt of an Anthropic request: text blocks.
#[derive(Debug, PartialEq)]
pub struct SystemPrompt {
    pub content: Vec<TextBlockParam>,
}

/// Whether every item of a list is a text block.
pub open spec fn all_blocks(items: Seq<SystemPromptItem>) -> bool {
    forall|i: int| 0 <= i < items.len() ==> #[trigger] items[i] is Block
}

impl SystemPrompt {
    /// A system prompt from a text, which becomes one plain text block, or from
    /// a list of text blocks, kept in order.
    pub fn new(content: SystemPromptInput) -> (r: Result<Self, TypeError>)
        ensures
            match content {
                SystemPromptInput::Text(t) => r matches Ok(p) && p.content@.len() == 1 && p.content@[0].text == t
                    && p.content@[0].cache_control is None && p.content@[0].citations is None && p.content@[0].kind@
                    == "text"@,
                SystemPromptInput::List(items) => if all_blocks(items@) {
                    r matches Ok(p) && p.content@.len() == items@.len() && forall|i: int|
                        0 <= i < items@.len() ==> items@[i] == SystemPromptItem::Block(#[trigger] p.content@[i])
                } else {
                    r matches Err(TypeError::InvalidInput(m)) && m@ == "All items in the list must be TextBlockParam"@
                },
                SystemPromptInput::Other => r matches Err(TypeError::InvalidInput(m)) && m@
                    == "Content must be either a string or a list of TextBlockParam"@,
            },
    {
        match content {
            SystemPromptInput::Text(t) => {
                let mut blocks: Vec<TextBlockParam> = Vec::new();
                blocks.push(TextBlockParam::new_rs(t, None, None));
                Ok(SystemPrompt { content: blocks })
            },
            SystemPromptInput::List(items) => {
                let ghost all = items@;
                let mut rest = items;
                let mut blocks: Vec<TextBlockParam> = Vec::new();
                while rest.len() > 0
                    invariant
                        content matches SystemPromptInput::List(v) && v@ == all,
                        blocks@.len() + rest@.len() == all.len(),
                        rest@ == all.skip(blocks@.len() as int),
                        forall|i: int| 0 <= i < blocks@.len() ==> all[i] == SystemPromptItem::Block(#[trigger] blocks@[i]),
                    decreases rest@.len(),
                {
                    let ghost k = blocks@.len() as int;
                    let item = rest.remove(0);
                    proof {
                        assert(item == all[k]);
                        assert(rest@ =~= all.skip(k + 1));
                    }
                    match item {
                        SystemPromptItem::Block(b) => blocks.push(b),
                        SystemPromptItem::Other => {
                            proof {
                                assert(!(all[k] is Block));
                            }
                            return Err(TypeError::InvalidInput("All items in the list must be TextBlockParam".to_owned()));
                        },
                    }
                }
                proof {
                    assert forall|i: int| 0 <= i < all.len() implies #[trigger] all[i] is Block by {
                        assert(all[i] == SystemPromptItem::Block(blocks@[i]));
                    }
                }
                Ok(SystemPrompt { content: blocks })
            },
            SystemPromptInput::Other => Err(
                TypeError::InvalidInput("Content must be either a string or a list of TextBlockParam".to_owned()),
            ),
        }
    }
}

} // verus!
