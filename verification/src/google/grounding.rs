use vstd::prelude::*;

use crate::google::config::{HarmBlockThreshold, HarmCategory, Modality};
use crate::text::{clone_opt_str, clone_strs};

verus! {

/// How a request was served.
#[derive(Debug, Clone, Copy, PartialEq, Eq, Structural)]
pub enum TrafficType {
    TrafficTypeUnspecified,
    OnDemand,
    ProvisionedThroughput,
}

/// The tokens of one modality.
#[derive(Debug, Clone, Copy, PartialEq, Eq, Structural)]
pub struct ModalityTokenCount {
    pub modality: Option<Modality>,
    pub token_count: Option<i32>,
}

/// Why a prompt was blocked.
#[derive(Debug, Clone, Copy, PartialEq, Eq, Structural)]
pub enum BlockedReason {
    BlockedReasonUnspecified,
    Safety,
    Other,
    Blocklist,
    ModelArmor,
    ProhibitedContent,
    ImageSafety,
    Jailbreak,
}

/// How likely content is to be harmful.
#[derive(Debug, Clone, Copy, PartialEq, Eq, Structural)]
pub enum HarmProbability {
    HarmProbabilityUnspecified,
    Negligible,
    Low,
    Medium,
    High,
}

/// How harmful content is.
#[derive(Debug, Clone, Copy, PartialEq, Eq, Structural)]
pub enum HarmSeverity {
    HarmSeverityUnspecified,
    HarmSeverityNegligible,
    HarmSeverityLow,
    HarmSeverityMedium,
    HarmSeverityHigh,
}

/// The safety rating of content for one kind of harm; the scores are given by
/// the bits of 32-bit floating-point numbers.
#[derive(Debug, Clone, Copy, PartialEq, Eq, Structural)]
pub struct SafetyRating {
    pub category: HarmCategory,
    pub probability: Option<HarmProbability>,
    pub probability_score_bits: Option<u32>,
    pub severity: Option<HarmSeverity>,
    pub severity_score_bits: Option<u32>,
    pub blocked: Option<bool>,
    pub overwritten_threshold: Option<HarmBlockThreshold>,
}

/// What the provider said of a prompt.
#[derive(Debug, Clone, PartialEq)]
pub struct PromptFeedback {
    pub block_reason: Option<BlockedReason>,
    pub safety_ratings: Option<Vec<SafetyRating>>,
    pub block_reason_message: Option<String>,
}

/// Whether a URL could be read.
#[derive(Debug, Clone, Copy, PartialEq, Eq, Structural)]
pub enum UrlRetrievalStatus {
    UrlRetrievalStatusUnspecified,
    UrlRetrievalStatusSuccess,
    UrlRetrievalStatusError,
}

/// A URL that the URL context tool read.
#[derive(Debug, Clone, PartialEq)]
pub struct UrlMetadata {
    pub retrieved_url: Option<String>,
    pub url_retrieval_status: Option<UrlRetrievalStatus>,
}

/// The URLs that the URL context tool read.
#[derive(Debug, Clone, PartialEq)]
pub struct UrlContextMetadata {
    pub url_metadata: Option<Vec<UrlMetadata>>,
}

/// Where a source can be flagged.
#[derive(Debug, Clone, PartialEq)]
pub struct SourceFlaggingUri {
    pub source_id: String,
    pub flag_content_uri: String,
}

/// How much search grounding was worth, given by the bits of a 64-bit
/// floating-point number.
#[derive(Debug, Clone, Copy, PartialEq, Eq, Structural)]
pub struct RetrievalMetadata {
    pub google_search_dynamic_retrieval_score_bits: Option<u64>,
}

/// The search suggestion to show with a grounded answer.
#[derive(Debug, Clone, PartialEq)]
pub struct SearchEntryPoint {
    pub rendered_content: Option<String>,
    pub sdk_blob: Option<String>,
}

/// A piece of the answer.
#[derive(Debug, Clone, PartialEq)]
pub struct Segment {
    pub part_index: Option<i32>,
    pub start_index: Option<i32>,
    pub end_index: Option<i32>,
    pub text: Option<String>,
}

/// The sources that support a piece of the answer; the confidence scores are
/// given by the bits of 32-bit floating-point numbers.
#[derive(Debug, Clone, PartialEq)]
pub struct GroundingSupport {
    pub grounding_chunk_indices: Option<Vec<i32>>,
    pub confidence_score_bits: Option<Vec<u32>>,
    pub segment: Option<Segment>,
}

/// A web page.
#[derive(Debug, Clone, PartialEq)]
pub struct Web {
    pub uri: Option<String>,
    pub title: Option<String>,
    pub domain: Option<String>,
}

/// A range of pages.
#[derive(Debug, Clone, Copy, PartialEq, Eq, Structural)]
pub struct PageSpan {
    pub first_page: i32,
    pub last_page: i32,
}

/// A chunk that the RAG engine retrieved.
#[derive(Debug, Clone, PartialEq)]
pub struct RagChunk {
    pub text: String,
    pub page_span: Option<PageSpan>,
}

/// Context that a retrieval tool found.
#[derive(Debug, Clone, PartialEq)]
pub struct RetrievedContext {
    pub uri: Option<String>,
    pub title: Option<String>,
    pub text: Option<String>,
    pub rag_chunk: Option<RagChunk>,
}

/// A place of Google Maps.
#[derive(Debug, Clone, PartialEq)]
pub struct Maps {
    pub uri: Option<String>,
    pub title: Option<String>,
    pub text: Option<String>,
    pub place_id: Option<String>,
}

/// Where a grounding chunk comes from.
#[derive(Debug, Clone, PartialEq)]
pub enum GroundingChunkType {
    Web(Web),
    RetrievedContext(RetrievedContext),
    Maps(Maps),
}

/// A source that grounds the answer.
#[derive(Debug, Clone, PartialEq)]
pub struct GroundingChunk {
    pub chunk_type: GroundingChunkType,
}

/// How the answer is grounded in sources.
#[derive(Debug, Clone, PartialEq)]
pub struct GroundingMetadata {
    pub web_search_queries: Option<Vec<String>>,
    pub grounding_chunks: Option<Vec<GroundingChunk>>,
    pub grounding_supports: Option<Vec<GroundingSupport>>,
    pub search_entry_point: Option<SearchEntryPoint>,
    pub retrieval_metadata: Option<RetrievalMetadata>,
    pub source_flagging_uris: Option<Vec<SourceFlaggingUri>>,
    pub google_maps_widget_context_token: Option<String>,
}

/// A date.
#[derive(Debug, Clone, Copy, PartialEq, Eq, Structural)]
pub struct GoogleDate {
    pub year: Option<i32>,
    pub month: Option<i32>,
    pub day: Option<i32>,
}

/// A source that the answer quotes.
#[derive(Debug, Clone, PartialEq)]
pub struct Citation {
    pub start_index: Option<i32>,
    pub end_index: Option<i32>,
    pub uri: Option<String>,
    pub title: Option<String>,
    pub license: Option<String>,
    pub publication_date: Option<GoogleDate>,
}

/// The sources that the answer quotes.
#[derive(Debug, Clone, PartialEq)]
pub struct CitationMetadata {
    pub citations: Option<Vec<Citation>>,
}

/// An optional list, taken as a sequence.
pub open spec fn opt_seq<T>(o: Option<Vec<T>>) -> Option<Seq<T>> {
    match o {
        Some(v) => Some(v@),
        None => None,
    }
}

/// Two grounding supports hold the same values.
pub open spec fn same_support(a: GroundingSupport, b: GroundingSupport) -> bool {
    opt_seq(a.grounding_chunk_indices) == opt_seq(b.grounding_chunk_indices) && opt_seq(a.confidence_score_bits)
        == opt_seq(b.confidence_score_bits) && a.segment == b.segment
}

/// Two lists of grounding supports hold the same values, one by one.
pub open spec fn same_supports(a: Seq<GroundingSupport>, b: Seq<GroundingSupport>) -> bool {
    a.len() == b.len() && forall|i: int| 0 <= i < a.len() ==> same_support(#[trigger] a[i], b[i])
}

/// Two grounding descriptions hold the same values.
pub open spec fn same_grounding(a: GroundingMetadata, b: GroundingMetadata) -> bool {
    &&& opt_seq(a.web_search_queries) == opt_seq(b.web_search_queries)
    &&& opt_seq(a.grounding_chunks) == opt_seq(b.grounding_chunks)
    &&& match (a.grounding_supports, b.grounding_supports) {
        (Some(x), Some(y)) => same_supports(x@, y@),
        (None, None) => true,
        _ => false,
    }
    &&& a.search_entry_point == b.search_entry_point
    &&& a.retrieval_metadata == b.retrieval_metadata
    &&& opt_seq(a.source_flagging_uris) == opt_seq(b.source_flagging_uris)
    &&& a.google_maps_widget_context_token == b.google_maps_widget_context_token
}

/// Two optional grounding descriptions hold the same values.
pub open spec fn same_opt_grounding(a: Option<GroundingMetadata>, b: Option<GroundingMetadata>) -> bool {
    match (a, b) {
        (Some(x), Some(y)) => same_grounding(x, y),
        (None, None) => true,
        _ => false,
    }
}

/// Two optional citation lists hold the same citations.
pub open spec fn same_opt_citations(a: Option<CitationMetadata>, b: Option<CitationMetadata>) -> bool {
    match (a, b) {
        (Some(x), Some(y)) => opt_seq(x.citations) == opt_seq(y.citations),
        (None, None) => true,
        _ => false,
    }
}

/// A copy of a list of values whose copies are equal to them.
fn copy_i32s(v: &Vec<i32>) -> (r: Vec<i32>)
    ensures
        r@ == v@,
{
    let mut out: Vec<i32> = Vec::new();
    let mut i: usize = 0;
    while i < v.len()
        invariant
            i <= v@.len(),
            out@ == v@.take(i as int),
        decreases v@.len() - i,
    {
        out.push(v[i]);
        proof {
            assert(v@.take(i + 1) =~= v@.take(i as int).push(v@[i as int]));
        }
        i = i + 1;
    }
    proof {
        assert(v@.take(i as int) =~= v@);
    }
    out
}

/// A copy of a list of bit patterns.
fn copy_u32s(v: &Vec<u32>) -> (r: Vec<u32>)
    ensures
        r@ == v@,
{
    let mut out: Vec<u32> = Vec::new();
    let mut i: usize = 0;
    while i < v.len()
        invariant
            i <= v@.len(),
            out@ == v@.take(i as int),
        decreases v@.len() - i,
    {
        out.push(v[i]);
        proof {
            assert(v@.take(i + 1) =~= v@.take(i as int).push(v@[i as int]));
        }
        i = i + 1;
    }
    proof {
        assert(v@.take(i as int) =~= v@);
    }
    out
}

impl Segment {
    /// A copy of the segment.
    pub fn duplicate(&self) -> (r: Segment)
        ensures
            r == *self,
    {
        Segment {
            part_index: self.part_index,
            start_index: self.start_index,
            end_index: self.end_index,
            text: clone_opt_str(&self.text),
        }
    }
}

impl GroundingSupport {
    /// A copy of the support.
    pub fn duplicate(&self) -> (r: GroundingSupport)
        ensures
            same_support(*self, r),
    {
        GroundingSupport {
            grounding_chunk_indices: match &self.grounding_chunk_indices {
                Some(v) => Some(copy_i32s(v)),
                None => None,
            },
            confidence_score_bits: match &self.confidence_score_bits {
                Some(v) => Some(copy_u32s(v)),
                None => None,
            },
            segment: match &self.segment {
                Some(s) => Some(s.duplicate()),
                None => None,
            },
        }
    }
}

impl GroundingChunk {
    /// A copy of the chunk.
    pub fn duplicate(&self) -> (r: GroundingChunk)
        ensures
            r == *self,
    {
        let chunk_type = match &self.chunk_type {
            GroundingChunkType::Web(w) => GroundingChunkType::Web(
                Web { uri: clone_opt_str(&w.uri), title: clone_opt_str(&w.title), domain: clone_opt_str(&w.domain) },
            ),
            GroundingChunkType::RetrievedContext(c) => GroundingChunkType::RetrievedContext(
                RetrievedContext {
                    uri: clone_opt_str(&c.uri),
                    title: clone_opt_str(&c.title),
                    text: clone_opt_str(&c.text),
                    rag_chunk: match &c.rag_chunk {
                        Some(k) => Some(RagChunk { text: k.text.clone(), page_span: k.page_span }),
                        None => None,
                    },
                },
            ),
            GroundingChunkType::Maps(m) => GroundingChunkType::Maps(
                Maps {
                    uri: clone_opt_str(&m.uri),
                    title: clone_opt_str(&m.title),
                    text: clone_opt_str(&m.text),
                    place_id: clone_opt_str(&m.place_id),
                },
            ),
        };
        GroundingChunk { chunk_type }
    }
}

/// A copy of a list of grounding chunks.
fn copy_chunks(v: &Vec<GroundingChunk>) -> (r: Vec<GroundingChunk>)
    ensures
        r@ == v@,
{
    let mut out: Vec<GroundingChunk> = Vec::new();
    let mut i: usize = 0;
    while i < v.len()
        invariant
            i <= v@.len(),
            out@ == v@.take(i as int),
        decreases v@.len() - i,
    {
        out.push(v[i].duplicate());
        proof {
            assert(v@.take(i + 1) =~= v@.take(i as int).push(v@[i as int]));
        }
        i = i + 1;
    }
    proof {
        assert(v@.take(i as int) =~= v@);
    }
    out
}

/// A copy of a list of grounding supports.
fn copy_supports(v: &Vec<GroundingSupport>) -> (r: Vec<GroundingSupport>)
    ensures
        same_supports(v@, r@),
{
    let mut out: Vec<GroundingSupport> = Vec::new();
    let mut i: usize = 0;
    while i < v.len()
        invariant
            i <= v@.len(),
            out@.len() == i,
            forall|j: int| 0 <= j < i ==> same_support(#[trigger] v@[j], out@[j]),
        decreases v@.len() - i,
    {
        out.push(v[i].duplicate());
        i = i + 1;
    }
    out
}

/// A copy of a list of flagging links.
fn copy_flagging_uris(v: &Vec<SourceFlaggingUri>) -> (r: Vec<SourceFlaggingUri>)
    ensures
        r@ == v@,
{
    let mut out: Vec<SourceFlaggingUri> = Vec::new();
    let mut i: usize = 0;
    while i < v.len()
        invariant
            i <= v@.len(),
            out@ == v@.take(i as int),
        decreases v@.len() - i,
    {
        out.push(
            SourceFlaggingUri { source_id: v[i].source_id.clone(), flag_content_uri: v[i].flag_content_uri.clone() },
        );
        proof {
            assert(v@.take(i + 1) =~= v@.take(i as int).push(v@[i as int]));
        }
        i = i + 1;
    }
    proof {
        assert(v@.take(i as int) =~= v@);
    }
    out
}

impl GroundingMetadata {
    /// A copy of the grounding description.
    pub fn duplicate(&self) -> (r: GroundingMetadata)
        ensures
            same_grounding(*self, r),
    {
        GroundingMetadata {
            web_search_queries: match &self.web_search_queries {
                Some(v) => Some(clone_strs(v)),
                None => None,
            },
            grounding_chunks: match &self.grounding_chunks {
                Some(v) => Some(copy_chunks(v)),
                None => None,
            },
            grounding_supports: match &self.grounding_supports {
                Some(v) => Some(copy_supports(v)),
                None => None,
            },
            search_entry_point: match &self.search_entry_point {
                Some(p) => Some(
                    SearchEntryPoint {
                        rendered_content: clone_opt_str(&p.rendered_content),
                        sdk_blob: clone_opt_str(&p.sdk_blob),
                    },
                ),
                None => None,
            },
            retrieval_metadata: self.retrieval_metadata,
            source_flagging_uris: match &self.source_flagging_uris {
                Some(v) => Some(copy_flagging_uris(v)),
                None => None,
            },
            google_maps_widget_context_token: clone_opt_str(&self.google_maps_widget_context_token),
        }
    }
}

impl CitationMetadata {
    /// A copy of the citations.
    pub fn duplicate(&self) -> (r: CitationMetadata)
        ensures
            opt_seq(r.citations) == opt_seq(self.citations),
    {
        let citations = match &self.citations {
            Some(v) => {
                let mut out: Vec<Citation> = Vec::new();
                let mut i: usize = 0;
                while i < v.len()
                    invariant
                        i <= v@.len(),
                        out@ == v@.take(i as int),
                    decreases v@.len() - i,
                {
                    let c = &v[i];
                    out.push(
                        Citation {
                            start_index: c.start_index,
                            end_index: c.end_index,
                            uri: clone_opt_str(&c.uri),
                            title: clone_opt_str(&c.title),
                            license: clone_opt_str(&c.license),
                            publication_date: c.publication_date,
                        },
                    );
                    proof {
                        assert(v@.take(i + 1) =~= v@.take(i as int).push(v@[i as int]));
                    }
                    i = i + 1;
                }
                proof {
                    assert(v@.take(i as int) =~= v@);
                }
                Some(out)
            },
            None => None,
        };
        CitationMetadata { citations }
    }
}

} // verus!
