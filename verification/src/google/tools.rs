use vstd::prelude::*;

use crate::error::TypeError;
use crate::google::request::AuthConfig;
use crate::json::Json;

verus! {

/// The type of a value that a schema describes.
#[derive(Debug, Clone, Copy, PartialEq, Eq, Structural)]
pub enum SchemaType {
    TypeUnspecified,
    String,
    Number,
    Integer,
    Boolean,
    Array,
    Object,
    Null,
}

/// A description of JSON values, in the form that Gemini reads.
#[derive(Debug, PartialEq)]
pub struct Schema {
    pub kind: Option<SchemaType>,
    pub format: Option<String>,
    pub title: Option<String>,
    pub description: Option<String>,
    pub nullable: Option<bool>,
    pub enum_values: Option<Vec<String>>,
    pub max_items: Option<String>,
    pub min_items: Option<String>,
    pub properties: Option<Vec<(String, Schema)>>,
    pub required: Option<Vec<String>>,
    pub min_properties: Option<String>,
    pub max_properties: Option<String>,
    pub min_length: Option<String>,
    pub max_length: Option<String>,
    pub pattern: Option<String>,
    pub example: Option<Json>,
    pub any_of: Option<Vec<Schema>>,
    pub property_ordering: Option<Vec<String>>,
    pub default: Option<Json>,
    pub items: Option<Box<Schema>>,
}

impl Schema {
    /// A schema of the given values; `items` is boxed.
    pub fn new(
        kind: Option<SchemaType>,
        format: Option<String>,
        title: Option<String>,
        description: Option<String>,
        nullable: Option<bool>,
        enum_values: Option<Vec<String>>,
        max_items: Option<String>,
        min_items: Option<String>,
        properties: Option<Vec<(String, Schema)>>,
        required: Option<Vec<String>>,
        min_properties: Option<String>,
        max_properties: Option<String>,
        min_length: Option<String>,
        max_length: Option<String>,
        pattern: Option<String>,
        example: Option<Json>,
        any_of: Option<Vec<Schema>>,
        property_ordering: Option<Vec<String>>,
        default: Option<Json>,
        items: Option<Schema>,
    ) -> (r: Schema)
        ensures
            r.kind == kind && r.format == format && r.title == title && r.description == description && r.nullable
                == nullable && r.enum_values == enum_values && r.max_items == max_items && r.min_items == min_items,
            r.properties == properties && r.required == required && r.min_properties == min_properties
                && r.max_properties == max_properties && r.min_length == min_length && r.max_length == max_length
                && r.pattern == pattern,
            r.example == example && r.any_of == any_of && r.property_ordering == property_ordering && r.default
                == default,
            match items {
                Some(s) => r.items matches Some(b) && *b == s,
                None => r.items is None,
            },
    {
        let items = match items {
            Some(s) => Some(Box::new(s)),
            None => None,
        };
        Schema {
            kind,
            format,
            title,
            description,
            nullable,
            enum_values,
            max_items,
            min_items,
            properties,
            required,
            min_properties,
            max_properties,
            min_length,
            max_length,
            pattern,
            example,
            any_of,
            property_ordering,
            default,
            items,
        }
    }
}

/// Whether the model waits for a function's result.
#[derive(Debug, Clone, Copy, PartialEq, Eq, Structural)]
pub enum Behavior {
    Unspecified,
    Blocking,
    NonBlocking,
}

/// A function that the model may call.
#[derive(Debug, PartialEq)]
pub struct FunctionDeclaration {
    pub name: String,
    pub description: String,
    pub behavior: Option<Behavior>,
    pub parameters: Option<Schema>,
    pub parameters_json_schema: Option<Json>,
    pub response: Option<Schema>,
    pub response_json_schema: Option<Json>,
}

/// A data store to search, with an optional filter.
#[derive(Debug, Clone, PartialEq)]
pub struct DataStoreSpec {
    pub data_store: String,
    pub filter: Option<String>,
}

impl DataStoreSpec {
    /// The store `data_store`, searched with `filter`.
    pub fn new(data_store: String, filter: Option<String>) -> (r: DataStoreSpec)
        ensures
            r == (DataStoreSpec { data_store, filter }),
    {
        DataStoreSpec { data_store, filter }
    }
}

/// Search in Vertex AI Search.
#[derive(Debug, Clone, PartialEq)]
pub struct VertexAISearch {
    pub datastore: Option<String>,
    pub engine: Option<String>,
    pub max_results: Option<i32>,
    pub filter: Option<String>,
    pub data_store_specs: Option<Vec<DataStoreSpec>>,
}

impl VertexAISearch {
    /// A search of the given values.
    pub fn new(
        datastore: Option<String>,
        engine: Option<String>,
        max_results: Option<i32>,
        filter: Option<String>,
        data_store_specs: Option<Vec<DataStoreSpec>>,
    ) -> (r: VertexAISearch)
        ensures
            r == (VertexAISearch { datastore, engine, max_results, filter, data_store_specs }),
    {
        VertexAISearch { datastore, engine, max_results, filter, data_store_specs }
    }
}

/// A corpus of the RAG engine, or some of its files.
#[derive(Debug, Clone, PartialEq)]
pub struct RagResource {
    pub rag_corpus: Option<String>,
    pub rag_file_ids: Option<Vec<String>>,
}

impl RagResource {
    /// The resource of the given values.
    pub fn new(rag_corpus: Option<String>, rag_file_ids: Option<Vec<String>>) -> (r: RagResource)
        ensures
            r == (RagResource { rag_corpus, rag_file_ids }),
    {
        RagResource { rag_corpus, rag_file_ids }
    }
}

/// Which retrieved contexts are kept, by their metadata.
#[derive(Debug, Clone, PartialEq)]
pub struct Filter {
    pub metadata_filter: Option<String>,
}

impl Filter {
    /// Keeping the contexts that `metadata_filter` accepts.
    pub fn new(metadata_filter: Option<String>) -> (r: Filter)
        ensures
            r == (Filter { metadata_filter }),
    {
        Filter { metadata_filter }
    }
}

/// Ranking by the rank service.
#[derive(Debug, Clone, PartialEq)]
pub struct RankService {
    pub model_name: Option<String>,
}

impl RankService {
    /// The rank service with `model_name`.
    pub fn new(model_name: Option<String>) -> (r: RankService)
        ensures
            r == (RankService { model_name }),
    {
        RankService { model_name }
    }
}

/// Ranking by a language model.
#[derive(Debug, Clone, PartialEq)]
pub struct LlmRanker {
    pub model_name: Option<String>,
}

impl LlmRanker {
    /// Ranking with the model `model_name`.
    pub fn new(model_name: Option<String>) -> (r: LlmRanker)
        ensures
            r == (LlmRanker { model_name }),
    {
        LlmRanker { model_name }
    }
}

/// How retrieved contexts are ranked.
#[derive(Debug, Clone, PartialEq)]
pub enum RankingConfig {
    RankService(RankService),
    LlmRanker(LlmRanker),
}

/// The ranking of retrieved contexts.
#[derive(Debug, Clone, PartialEq)]
pub struct Ranking {
    pub ranking_config: RankingConfig,
}

impl Ranking {
    /// The ranking that exactly one of the two arguments gives; fails with
    /// `InvalidRankingConfig` when both or neither are given.
    pub fn new(rank_service: Option<RankService>, llm_ranker: Option<LlmRanker>) -> (r: Result<Ranking, TypeError>)
        ensures
            match (rank_service, llm_ranker) {
                (Some(s), None) => r == Ok::<Ranking, TypeError>(
                    Ranking { ranking_config: RankingConfig::RankService(s) },
                ),
                (None, Some(l)) => r == Ok::<Ranking, TypeError>(
                    Ranking { ranking_config: RankingConfig::LlmRanker(l) },
                ),
                _ => r == Err::<Ranking, TypeError>(TypeError::InvalidRankingConfig),
            },
    {
        match (rank_service, llm_ranker) {
            (Some(s), None) => Ok(Ranking { ranking_config: RankingConfig::RankService(s) }),
            (None, Some(l)) => Ok(Ranking { ranking_config: RankingConfig::LlmRanker(l) }),
            _ => Err(TypeError::InvalidRankingConfig),
        }
    }
}

/// How the RAG engine retrieves contexts.
#[derive(Debug, Clone, PartialEq)]
pub struct RagRetrievalConfig {
    pub top_k: Option<i32>,
    pub filter: Option<Filter>,
    pub ranking: Option<Ranking>,
}

impl RagRetrievalConfig {
    /// A retrieval configuration of the given values.
    pub fn new(top_k: Option<i32>, filter: Option<Filter>, ranking: Option<Ranking>) -> (r: RagRetrievalConfig)
        ensures
            r == (RagRetrievalConfig { top_k, filter, ranking }),
    {
        RagRetrievalConfig { top_k, filter, ranking }
    }
}

/// Retrieval from the RAG engine of Vertex AI.
#[derive(Debug, Clone, PartialEq)]
pub struct VertexRagStore {
    pub rag_resources: Option<Vec<RagResource>>,
    pub rag_retrieval_config: Option<RagRetrievalConfig>,
    pub similarity_top_k: Option<i32>,
}

/// The kind of an external search API.
#[derive(Debug, Clone, Copy, PartialEq, Eq, Structural)]
pub enum ApiSpecType {
    ApiSpecUnspecified,
    SimpleSearch,
    ElasticSearch,
}

/// The parameters of a simple search: none.
#[derive(Debug, Clone, Copy, PartialEq, Eq, Structural)]
pub struct SimpleSearchParams {}

impl SimpleSearchParams {
    /// The parameters of a simple search.
    pub fn new() -> (r: SimpleSearchParams)
        ensures
            r == (SimpleSearchParams {}),
    {
        SimpleSearchParams {}
    }
}

/// The parameters of an Elasticsearch search.
#[derive(Debug, Clone, PartialEq)]
pub struct ElasticSearchParams {
    pub index: String,
    pub search_template: String,
    pub num_hits: Option<i32>,
}

impl ElasticSearchParams {
    /// Searching `index` with `search_template`.
    pub fn new(index: String, search_template: String, num_hits: Option<i32>) -> (r: ElasticSearchParams)
        ensures
            r == (ElasticSearchParams { index, search_template, num_hits }),
    {
        ElasticSearchParams { index, search_template, num_hits }
    }
}

/// The parameters of an external search.
#[derive(Debug, Clone, PartialEq)]
pub enum ExternalApiParams {
    SimpleSearchParams(SimpleSearchParams),
    ElasticSearchParams(ElasticSearchParams),
}

/// An external search API.
#[derive(Debug, Clone, PartialEq)]
pub struct ExternalApi {
    pub api_spec: ApiSpecType,
    pub endpoint: String,
    pub auth_config: Option<AuthConfig>,
    pub params: Option<ExternalApiParams>,
}

impl ExternalApi {
    /// An external API; its parameters are the one set given, and none when both
    /// or neither are given.
    pub fn new(
        api_spec: ApiSpecType,
        endpoint: String,
        auth_config: Option<AuthConfig>,
        simple_search_params: Option<SimpleSearchParams>,
        elastic_search_params: Option<ElasticSearchParams>,
    ) -> (r: ExternalApi)
        ensures
            r.api_spec == api_spec && r.endpoint == endpoint && r.auth_config == auth_config,
            r.params == match (simple_search_params, elastic_search_params) {
                (Some(s), None) => Some(ExternalApiParams::SimpleSearchParams(s)),
                (None, Some(e)) => Some(ExternalApiParams::ElasticSearchParams(e)),
                _ => None,
            },
    {
        let params = match (simple_search_params, elastic_search_params) {
            (Some(s), None) => Some(ExternalApiParams::SimpleSearchParams(s)),
            (None, Some(e)) => Some(ExternalApiParams::ElasticSearchParams(e)),
            _ => None,
        };
        ExternalApi { api_spec, endpoint, auth_config, params }
    }
}

/// Where a retrieval tool searches.
#[derive(Debug, Clone, PartialEq)]
pub enum RetrievalSource {
    VertexAiSearch(VertexAISearch),
    VertexRagStore(VertexRagStore),
    ExternalApi(ExternalApi),
}

impl RetrievalSource {
    /// The source that exactly one of the three arguments gives; fails with
    /// `InvalidRetrievalSource` otherwise.
    pub fn new(
        vertex_ai_search: Option<VertexAISearch>,
        vertex_rag_store: Option<VertexRagStore>,
        external_api: Option<ExternalApi>,
    ) -> (r: Result<RetrievalSource, TypeError>)
        ensures
            match (vertex_ai_search, vertex_rag_store, external_api) {
                (Some(a), None, None) => r == Ok::<RetrievalSource, TypeError>(RetrievalSource::VertexAiSearch(a)),
                (None, Some(b), None) => r == Ok::<RetrievalSource, TypeError>(RetrievalSource::VertexRagStore(b)),
                (None, None, Some(c)) => r == Ok::<RetrievalSource, TypeError>(RetrievalSource::ExternalApi(c)),
                _ => r == Err::<RetrievalSource, TypeError>(TypeError::InvalidRetrievalSource),
            },
    {
        match (vertex_ai_search, vertex_rag_store, external_api) {
            (Some(a), None, None) => Ok(RetrievalSource::VertexAiSearch(a)),
            (None, Some(b), None) => Ok(RetrievalSource::VertexRagStore(b)),
            (None, None, Some(c)) => Ok(RetrievalSource::ExternalApi(c)),
            _ => Err(TypeError::InvalidRetrievalSource),
        }
    }
}

/// A tool that retrieves context from `source`.
#[derive(Debug, Clone, PartialEq)]
pub struct Retrieval {
    pub disable_attribution: Option<bool>,
    pub source: RetrievalSource,
}

impl Retrieval {
    /// Retrieval from `source`.
    pub fn new(source: RetrievalSource, disable_attribution: Option<bool>) -> (r: Retrieval)
        ensures
            r == (Retrieval { disable_attribution, source }),
    {
        Retrieval { disable_attribution, source }
    }
}

/// A span of time.
#[derive(Debug, Clone, PartialEq)]
pub struct Interval {
    pub start_time: String,
    pub end_time: String,
}

/// Google Search as the Gemini API offers it.
#[derive(Debug, Clone, PartialEq)]
pub struct GoogleSearch {
    pub time_range_filter: Interval,
}

/// From which likelihood of phishing a site is left out.
#[derive(Debug, Clone, Copy, PartialEq, Eq, Structural)]
pub enum PhishBlockThreshold {
    PhishBlockThresholdUnspecified,
    BlockLowAndAbove,
    BlockMediumAndAbove,
    BlockHighAndAbove,
    BlockHigherAndAbove,
    BlockVeryHighAndAbove,
    BlockOnlyExtremelyHigh,
}

/// Google Search as Vertex AI offers it.
#[derive(Debug, Clone, PartialEq)]
pub struct VertexGoogleSearch {
    pub exclude_domains: Option<Vec<String>>,
    pub blocking_confidence: Option<PhishBlockThreshold>,
}

impl VertexGoogleSearch {
    /// A search of the given values.
    pub fn new(exclude_domains: Option<Vec<String>>, blocking_confidence: Option<PhishBlockThreshold>) -> (r:
        VertexGoogleSearch)
        ensures
            r == (VertexGoogleSearch { exclude_domains, blocking_confidence }),
    {
        VertexGoogleSearch { exclude_domains, blocking_confidence }
    }
}

/// Web search for enterprises.
#[derive(Debug, Clone, PartialEq)]
pub struct EnterpriseWebSearch {
    pub exclude_domains: Option<Vec<String>>,
    pub blocking_confidence: Option<PhishBlockThreshold>,
}

impl EnterpriseWebSearch {
    /// A search of the given values.
    pub fn new(exclude_domains: Option<Vec<String>>, blocking_confidence: Option<PhishBlockThreshold>) -> (r:
        EnterpriseWebSearch)
        ensures
            r == (EnterpriseWebSearch { exclude_domains, blocking_confidence }),
    {
        EnterpriseWebSearch { exclude_domains, blocking_confidence }
    }
}

/// Search by Parallel AI; its settings form a JSON object.
#[derive(Debug, PartialEq)]
pub struct ParallelAiSearch {
    pub api_key: Option<String>,
    pub custom_configs: Option<Json>,
}

impl ParallelAiSearch {
    /// A search with `api_key`; settings that are not a JSON object are dropped.
    pub fn new(api_key: Option<String>, custom_configs: Option<Json>) -> (r: ParallelAiSearch)
        ensures
            r.api_key == api_key,
            match custom_configs {
                Some(c) => if c.view() is Object {
                    r.custom_configs == Some(c)
                } else {
                    r.custom_configs is None
                },
                None => r.custom_configs is None,
            },
    {
        let custom_configs = match custom_configs {
            Some(c) => if c.is_object() {
                Some(c)
            } else {
                None
            },
            None => None,
        };
        ParallelAiSearch { api_key, custom_configs }
    }
}

/// Google Search, in the form of the Gemini API or of Vertex AI.
#[derive(Debug, Clone, PartialEq)]
pub enum GoogleSearchNum {
    GeminiSearch(GoogleSearch),
    VertexSearch(VertexGoogleSearch),
}

impl GoogleSearchNum {
    /// The search that exactly one of the two arguments gives.
    pub fn new(gemini_search: Option<GoogleSearch>, vertex_search: Option<VertexGoogleSearch>) -> (r: GoogleSearchNum)
        requires
            gemini_search is Some != vertex_search is Some,
        ensures
            gemini_search is Some ==> r == GoogleSearchNum::GeminiSearch(gemini_search->0),
            vertex_search is Some ==> r == GoogleSearchNum::VertexSearch(vertex_search->0),
    {
        if gemini_search.is_some() {
            GoogleSearchNum::GeminiSearch(gemini_search.unwrap())
        } else {
            GoogleSearchNum::VertexSearch(vertex_search.unwrap())
        }
    }
}

/// When search grounding is used.
#[derive(Debug, Clone, Copy, PartialEq, Eq, Structural)]
pub enum DynamicRetrievalMode {
    ModeUnspecified,
    ModeDynamic,
}

/// When search grounding is used.
#[derive(Debug, Clone, Copy, PartialEq, Eq, Structural)]
pub struct DynamicRetrievalConfig {
    pub mode: Option<DynamicRetrievalMode>,
}

impl DynamicRetrievalConfig {
    /// Grounding in `mode`.
    pub fn new(mode: Option<DynamicRetrievalMode>) -> (r: DynamicRetrievalConfig)
        ensures
            r == (DynamicRetrievalConfig { mode }),
    {
        DynamicRetrievalConfig { mode }
    }
}

/// Grounding in Google Search results.
#[derive(Debug, Clone, Copy, PartialEq, Eq, Structural)]
pub struct GoogleSearchRetrieval {
    pub dynamic_retrieval_config: Option<DynamicRetrievalConfig>,
}

impl GoogleSearchRetrieval {
    /// Grounding configured by `dynamic_retrieval_config`.
    pub fn new(dynamic_retrieval_config: Option<DynamicRetrievalConfig>) -> (r: GoogleSearchRetrieval)
        ensures
            r == (GoogleSearchRetrieval { dynamic_retrieval_config }),
    {
        GoogleSearchRetrieval { dynamic_retrieval_config }
    }
}

/// Grounding in Google Maps.
#[derive(Debug, Clone, Copy, PartialEq, Eq, Structural)]
pub struct GoogleMaps {
    pub enable_widget: bool,
}

impl GoogleMaps {
    /// Google Maps, with its widget when `enable_widget` holds.
    pub fn new(enable_widget: bool) -> (r: GoogleMaps)
        ensures
            r == (GoogleMaps { enable_widget }),
    {
        GoogleMaps { enable_widget }
    }
}

/// Running code that the model writes.
#[derive(Debug, Clone, Copy, PartialEq, Eq, Structural)]
pub struct CodeExecution {}

impl CodeExecution {
    /// The code execution tool.
    pub fn new() -> (r: CodeExecution)
        ensures
            r == (CodeExecution {}),
    {
        CodeExecution {}
    }
}

/// Where a computer-use tool acts.
#[derive(Debug, Clone, Copy, PartialEq, Eq, Structural)]
pub enum ComputerUseEnvironment {
    EnvironmentUnspecified,
    EnvironmentBrowser,
}

/// Use of a computer by the model.
#[derive(Debug, Clone, PartialEq)]
pub struct ComputerUse {
    pub environment: ComputerUseEnvironment,
    pub excluded_predefined_functions: Vec<String>,
}

impl ComputerUse {
    /// Computer use in `environment`, without the listed functions.
    pub fn new(environment: ComputerUseEnvironment, excluded_predefined_functions: Vec<String>) -> (r: ComputerUse)
        ensures
            r == (ComputerUse { environment, excluded_predefined_functions }),
    {
        ComputerUse { environment, excluded_predefined_functions }
    }
}

/// Reading the pages at the URLs of the prompt.
#[derive(Debug, Clone, Copy, PartialEq, Eq, Structural)]
pub struct UrlContext {}

impl UrlContext {
    /// The URL context tool.
    pub fn new() -> (r: UrlContext)
        ensures
            r == (UrlContext {}),
    {
        UrlContext {}
    }
}

/// Search in file search stores.
#[derive(Debug, Clone, PartialEq)]
pub struct FileSearch {
    pub file_search_store_names: Vec<String>,
    pub metadata_filter: String,
    pub top_k: i32,
}

impl FileSearch {
    /// A search of the given stores.
    pub fn new(file_search_store_names: Vec<String>, metadata_filter: String, top_k: i32) -> (r: FileSearch)
        ensures
            r == (FileSearch { file_search_store_names, metadata_filter, top_k }),
    {
        FileSearch { file_search_store_names, metadata_filter, top_k }
    }
}

/// The tools that a Gemini model may use.
#[derive(Debug, PartialEq)]
pub struct Tool {
    pub function_declarations: Option<Vec<FunctionDeclaration>>,
    pub retrieval: Option<Retrieval>,
    pub google_search_retrieval: Option<GoogleSearchRetrieval>,
    pub code_execution: Option<CodeExecution>,
    pub google_search: Option<GoogleSearchNum>,
    pub google_maps: Option<GoogleMaps>,
    pub enterprise_web_search: Option<EnterpriseWebSearch>,
    pub parallel_ai_search: Option<ParallelAiSearch>,
    pub computer_use: Option<ComputerUse>,
    pub url_context: Option<UrlContext>,
    pub file_search: Option<FileSearch>,
}

impl Tool {
    /// The tools of the given values.
    pub fn new(
        function_declarations: Option<Vec<FunctionDeclaration>>,
        retrieval: Option<Retrieval>,
        google_search_retrieval: Option<GoogleSearchRetrieval>,
        code_execution: Option<CodeExecution>,
        google_search: Option<GoogleSearchNum>,
        google_maps: Option<GoogleMaps>,
        enterprise_web_search: Option<EnterpriseWebSearch>,
        parallel_ai_search: Option<ParallelAiSearch>,
        computer_use: Option<ComputerUse>,
        url_context: Option<UrlContext>,
        file_search: Option<FileSearch>,
    ) -> (r: Tool)
        ensures
            r == (Tool {
                function_declarations,
                retrieval,
                google_search_retrieval,
                code_execution,
                google_search,
                google_maps,
                enterprise_web_search,
                parallel_ai_search,
                computer_use,
                url_context,
                file_search,
            }),
    {
        Tool {
            function_declarations,
            retrieval,
            google_search_retrieval,
            code_execution,
            google_search,
            google_maps,
            enterprise_web_search,
            parallel_ai_search,
            computer_use,
            url_context,
            file_search,
        }
    }
}

} // verus!
