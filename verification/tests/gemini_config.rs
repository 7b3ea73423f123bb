use potatohead::error::TypeError;
use potatohead::google::config::{
    AutoRoutingMode, FunctionCallingConfig, HarmBlockThreshold, HarmCategory, ManualRoutingMode, Mode,
    ModelRoutingPreference, RoutingConfigMode, SafetySetting, ToolConfig,
};
use potatohead::google::request::{FunctionCall, PartMetadata};
use potatohead::google::tools::{
    ApiSpecType, ElasticSearchParams, ExternalApi, ExternalApiParams, GoogleSearch, GoogleSearchNum, Interval, LlmRanker,
    ParallelAiSearch, RankService, Ranking, RankingConfig, RetrievalSource, Schema, SchemaType, SimpleSearchParams,
    VertexAISearch, VertexGoogleSearch,
};
use potatohead::json::Json;
use potatohead::settings::{GeminiSettings, GenerationConfig};

fn object(key: &str, value: &str) -> Json {
    Json::Object(vec![(key.to_string(), Json::Str(value.to_string()))])
}

#[test]
fn routing_mode_needs_exactly_one_choice() {
    let auto = AutoRoutingMode::new(Some(ModelRoutingPreference::Balanced));
    let manual = ManualRoutingMode::new("gemini-2.5-pro".to_string());
    assert_eq!(RoutingConfigMode::new(Some(auto), None), Ok(RoutingConfigMode::AutoMode(auto)));
    assert_eq!(
        RoutingConfigMode::new(None, Some(manual.clone())),
        Ok(RoutingConfigMode::ManualMode(manual.clone()))
    );
    assert_eq!(RoutingConfigMode::new(Some(auto), Some(manual)), Err(TypeError::MissingRoutingConfigMode));
    assert_eq!(RoutingConfigMode::new(None, None), Err(TypeError::MissingRoutingConfigMode));
}

#[test]
fn ranking_needs_exactly_one_ranker() {
    let service = RankService::new(Some("semantic-ranker".to_string()));
    let llm = LlmRanker::new(None);
    assert_eq!(
        Ranking::new(Some(service.clone()), None),
        Ok(Ranking { ranking_config: RankingConfig::RankService(service.clone()) })
    );
    assert_eq!(Ranking::new(None, Some(llm.clone())), Ok(Ranking { ranking_config: RankingConfig::LlmRanker(llm.clone()) }));
    assert_eq!(Ranking::new(Some(service), Some(llm)), Err(TypeError::InvalidRankingConfig));
    assert_eq!(Ranking::new(None, None), Err(TypeError::InvalidRankingConfig));
}

#[test]
fn retrieval_source_needs_exactly_one_source() {
    let search = VertexAISearch::new(Some("store".to_string()), None, Some(5), None, None);
    let api = ExternalApi::new(ApiSpecType::SimpleSearch, "https://example.com".to_string(), None, None, None);
    assert_eq!(
        RetrievalSource::new(Some(search.clone()), None, None),
        Ok(RetrievalSource::VertexAiSearch(search.clone()))
    );
    assert_eq!(RetrievalSource::new(None, None, Some(api.clone())), Ok(RetrievalSource::ExternalApi(api.clone())));
    assert_eq!(RetrievalSource::new(Some(search), None, Some(api)), Err(TypeError::InvalidRetrievalSource));
    assert_eq!(RetrievalSource::new(None, None, None), Err(TypeError::InvalidRetrievalSource));
}

#[test]
fn external_api_keeps_one_set_of_parameters() {
    let elastic = ElasticSearchParams::new("docs".to_string(), "template".to_string(), Some(3));
    let simple = ExternalApi::new(ApiSpecType::SimpleSearch, "e".to_string(), None, Some(SimpleSearchParams::new()), None);
    assert_eq!(simple.params, Some(ExternalApiParams::SimpleSearchParams(SimpleSearchParams {})));
    let es = ExternalApi::new(ApiSpecType::ElasticSearch, "e".to_string(), None, None, Some(elastic.clone()));
    assert_eq!(es.params, Some(ExternalApiParams::ElasticSearchParams(elastic.clone())));
    let both = ExternalApi::new(
        ApiSpecType::ElasticSearch,
        "e".to_string(),
        None,
        Some(SimpleSearchParams::new()),
        Some(elastic),
    );
    assert_eq!(both.params, None);
    assert_eq!(both.endpoint, "e");
}

#[test]
fn google_search_takes_the_given_form() {
    let gemini = GoogleSearch {
        time_range_filter: Interval { start_time: "2024-01-01".to_string(), end_time: "2024-12-31".to_string() },
    };
    assert_eq!(GoogleSearchNum::new(Some(gemini.clone()), None), GoogleSearchNum::GeminiSearch(gemini));
    let vertex = VertexGoogleSearch::new(Some(vec!["example.com".to_string()]), None);
    assert_eq!(GoogleSearchNum::new(None, Some(vertex.clone())), GoogleSearchNum::VertexSearch(vertex));
}

#[test]
fn only_objects_are_kept_as_settings_and_arguments() {
    let kept = ParallelAiSearch::new(Some("key".to_string()), Some(object("a", "b")));
    assert_eq!(kept.custom_configs, Some(object("a", "b")));
    let dropped = ParallelAiSearch::new(None, Some(Json::Str("x".to_string())));
    assert_eq!(dropped.custom_configs, None);

    let call = FunctionCall::new("f".to_string(), Some("1".to_string()), Some(object("x", "y")), None);
    assert_eq!(call.args, Some(object("x", "y")));
    let call = FunctionCall::new("f".to_string(), None, Some(Json::Bool(true)), Some(true));
    assert_eq!(call.args, None);
    assert_eq!(call.will_continue, Some(true));

    assert_eq!(PartMetadata::new(Some(object("k", "v"))).fields, object("k", "v"));
    assert_eq!(PartMetadata::new(Some(Json::Null)).fields, Json::Object(vec![]));
    assert_eq!(PartMetadata::new(None).fields, Json::Object(vec![]));
}

#[test]
fn schema_boxes_its_items() {
    let item = Schema::new(
        Some(SchemaType::String),
        None, None, None, None, None, None, None, None, None, None, None, None, None, None, None, None, None, None, None,
    );
    let list = Schema::new(
        Some(SchemaType::Array),
        None, None, None, None, None, None, None, None, None, None, None, None, None, None, None, None, None, None,
        Some(item),
    );
    assert_eq!(list.items.map(|b| b.kind), Some(Some(SchemaType::String)));
}

#[test]
fn structured_output_keeps_the_other_generation_settings() {
    let config = GenerationConfig::new(
        Some(vec!["END".to_string()]),
        Some("text/plain".to_string()),
        None,
        None,
        None,
        Some(0.5f32.to_bits()),
        None,
        Some(40),
        None,
        Some(256),
        None,
        None,
        None,
        None,
        Some(7),
        None,
        None,
        None,
        None,
        None,
        None,
    );
    let mut settings = GeminiSettings::new(
        None,
        Some(ToolConfig::new(Some(FunctionCallingConfig::new(Some(Mode::Auto), None)), None)),
        Some(config),
        Some(vec![SafetySetting::new(HarmCategory::HarmCategoryHarassment, HarmBlockThreshold::BlockOnlyHigh)]),
        None,
        None,
        Some("cache".to_string()),
        None,
    );
    settings.configure_for_structured_output(object("type", "object"));
    let g = settings.generation_config.as_ref().unwrap();
    assert_eq!(g.response_mime_type.as_deref(), Some("application/json"));
    assert_eq!(g.response_json_schema, Some(object("type", "object")));
    assert_eq!(g.stop_sequences, Some(vec!["END".to_string()]));
    assert_eq!(g.top_k, Some(40));
    assert_eq!(g.max_output_tokens, Some(256));
    assert_eq!(g.seed, Some(7));
    assert_eq!(g.temperature_bits.map(f32::from_bits), Some(0.5));
    assert_eq!(settings.cached_content.as_deref(), Some("cache"));
    assert_eq!(settings.safety_settings.as_ref().map(|v| v.len()), Some(1));

    let mut empty = GeminiSettings::default_settings();
    empty.configure_for_structured_output(Json::Null);
    let g = empty.generation_config.unwrap();
    assert_eq!(g.response_mime_type.as_deref(), Some("application/json"));
    assert_eq!(g.response_json_schema, Some(Json::Null));
    assert_eq!(g.top_k, None);
    assert_eq!(empty.cached_content, None);
}
