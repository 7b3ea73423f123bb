use vstd::prelude::*;

use crate::anthropic::request::AnthropicSettings;
use crate::error::TypeError;
use crate::google::config::{
    GeminiThinkingConfig, ImageConfig, Modality, ModelArmorConfig, SafetySetting, SpeechConfig, ToolConfig,
};
use crate::google::request::MediaResolution;
use crate::google::tools::Tool as GeminiTool;
use crate::json::{Json, JsonV};
use crate::openai::settings::{AudioParam, Prediction, StreamOptions, Tool, ToolChoice};
use crate::types::Provider;

verus! {

/// The settings of a request to an OpenAI chat model. The sampling settings
/// given as 32-bit floating-point numbers are held as their bits.
#[derive(Debug, PartialEq)]
pub struct OpenAIChatSettings {
    pub max_completion_tokens: Option<usize>,
    pub temperature_bits: Option<u32>,
    pub top_p_bits: Option<u32>,
    pub top_k: Option<i32>,
    pub frequency_penalty_bits: Option<u32>,
    pub timeout_bits: Option<u32>,
    pub parallel_tool_calls: Option<bool>,
    pub seed: Option<u64>,
    pub logit_bias: Option<Vec<(String, i32)>>,
    pub stop_sequences: Option<Vec<String>>,
    pub logprobs: Option<bool>,
    pub audio: Option<AudioParam>,
    pub metadata: Option<Vec<(String, String)>>,
    pub modalities: Option<Vec<String>>,
    pub n: Option<usize>,
    pub prediction: Option<Prediction>,
    pub presence_penalty_bits: Option<u32>,
    pub prompt_cache_key: Option<String>,
    pub reasoning_effort: Option<String>,
    pub safety_identifier: Option<String>,
    pub service_tier: Option<String>,
    pub store: Option<bool>,
    pub stream: Option<bool>,
    pub stream_options: Option<StreamOptions>,
    pub tool_choice: Option<ToolChoice>,
    pub tools: Option<Vec<Tool>>,
    pub top_logprobs: Option<i32>,
    pub verbosity: Option<String>,
    pub extra_body: Option<Json>,
}

/// OpenAI settings with nothing set.
pub open spec fn openai_defaults(t: OpenAIChatSettings) -> bool {
    &&& t.max_completion_tokens is None && t.temperature_bits is None && t.top_p_bits is None && t.top_k is None
    &&& t.frequency_penalty_bits is None && t.timeout_bits is None && t.parallel_tool_calls is None && t.seed is None
    &&& t.logit_bias is None && t.stop_sequences is None && t.logprobs is None && t.audio is None
    &&& t.metadata is None && t.modalities is None && t.n is None && t.prediction is None
    &&& t.presence_penalty_bits is None && t.prompt_cache_key is None && t.reasoning_effort is None && t.safety_identifier is None
    &&& t.service_tier is None && t.store is None && t.stream is None && t.stream_options is None
    &&& t.tool_choice is None && t.tools is None && t.top_logprobs is None && t.verbosity is None
    &&& t.extra_body is None
}

impl OpenAIChatSettings {
    /// Settings of the given values.
    pub fn new(
        max_completion_tokens: Option<usize>,
        temperature_bits: Option<u32>,
        top_p_bits: Option<u32>,
        top_k: Option<i32>,
        frequency_penalty_bits: Option<u32>,
        timeout_bits: Option<u32>,
        parallel_tool_calls: Option<bool>,
        seed: Option<u64>,
        logit_bias: Option<Vec<(String, i32)>>,
        stop_sequences: Option<Vec<String>>,
        logprobs: Option<bool>,
        audio: Option<AudioParam>,
        metadata: Option<Vec<(String, String)>>,
        modalities: Option<Vec<String>>,
        n: Option<usize>,
        prediction: Option<Prediction>,
        presence_penalty_bits: Option<u32>,
        prompt_cache_key: Option<String>,
        reasoning_effort: Option<String>,
        safety_identifier: Option<String>,
        service_tier: Option<String>,
        store: Option<bool>,
        stream: Option<bool>,
        stream_options: Option<StreamOptions>,
        tool_choice: Option<ToolChoice>,
        tools: Option<Vec<Tool>>,
        top_logprobs: Option<i32>,
        verbosity: Option<String>,
        extra_body: Option<Json>,
    ) -> (r: Self)
        ensures
            r == (OpenAIChatSettings {
                max_completion_tokens,
                temperature_bits,
                top_p_bits,
                top_k,
                frequency_penalty_bits,
                timeout_bits,
                parallel_tool_calls,
                seed,
                logit_bias,
                stop_sequences,
                logprobs,
                audio,
                metadata,
                modalities,
                n,
                prediction,
                presence_penalty_bits,
                prompt_cache_key,
                reasoning_effort,
                safety_identifier,
                service_tier,
                store,
                stream,
                stream_options,
                tool_choice,
                tools,
                top_logprobs,
                verbosity,
                extra_body,
            }),
    {
        OpenAIChatSettings {
            max_completion_tokens,
            temperature_bits,
            top_p_bits,
            top_k,
            frequency_penalty_bits,
            timeout_bits,
            parallel_tool_calls,
            seed,
            logit_bias,
            stop_sequences,
            logprobs,
            audio,
            metadata,
            modalities,
            n,
            prediction,
            presence_penalty_bits,
            prompt_cache_key,
            reasoning_effort,
            safety_identifier,
            service_tier,
            store,
            stream,
            stream_options,
            tool_choice,
            tools,
            top_logprobs,
            verbosity,
            extra_body,
        }
    }

    /// The settings used when none are given: nothing set.
    pub fn default_settings() -> (r: Self)
        ensures
            openai_defaults(r),
    {
        OpenAIChatSettings {
            max_completion_tokens: None,
            temperature_bits: None,
            top_p_bits: None,
            top_k: None,
            frequency_penalty_bits: None,
            timeout_bits: None,
            parallel_tool_calls: None,
            seed: None,
            logit_bias: None,
            stop_sequences: None,
            logprobs: None,
            audio: None,
            metadata: None,
            modalities: None,
            n: None,
            prediction: None,
            presence_penalty_bits: None,
            prompt_cache_key: None,
            reasoning_effort: None,
            safety_identifier: None,
            service_tier: None,
            store: None,
            stream: None,
            stream_options: None,
            tool_choice: None,
            tools: None,
            top_logprobs: None,
            verbosity: None,
            extra_body: None,
        }
    }
}

/// How a Gemini model generates its answer; the sampling settings given as
/// 32-bit floating-point numbers are held as their bits.
#[derive(Debug, PartialEq)]
pub struct GenerationConfig {
    pub stop_sequences: Option<Vec<String>>,
    pub response_mime_type: Option<String>,
    pub response_json_schema: Option<Json>,
    pub response_modalities: Option<Vec<Modality>>,
    pub candidate_count: Option<i32>,
    pub max_output_tokens: Option<i32>,
    pub temperature_bits: Option<u32>,
    pub top_p_bits: Option<u32>,
    pub top_k: Option<i32>,
    pub presence_penalty_bits: Option<u32>,
    pub frequency_penalty_bits: Option<u32>,
    pub seed: Option<i32>,
    pub response_logprobs: Option<bool>,
    pub logprobs: Option<i32>,
    pub enable_enhanced_civic_answers: Option<bool>,
    pub speech_config: Option<SpeechConfig>,
    pub thinking_config: Option<GeminiThinkingConfig>,
    pub image_config: Option<ImageConfig>,
    pub media_resolution: Option<MediaResolution>,
    pub audio_timestamp: Option<bool>,
    pub enable_affective_dialog: Option<bool>,
}

/// A generation configuration with nothing set.
pub open spec fn empty_generation_config() -> GenerationConfig {
    GenerationConfig {
        stop_sequences: None,
        response_mime_type: None,
        response_json_schema: None,
        response_modalities: None,
        candidate_count: None,
        max_output_tokens: None,
        temperature_bits: None,
        top_p_bits: None,
        top_k: None,
        presence_penalty_bits: None,
        frequency_penalty_bits: None,
        seed: None,
        response_logprobs: None,
        logprobs: None,
        enable_enhanced_civic_answers: None,
        speech_config: None,
        thinking_config: None,
        image_config: None,
        media_resolution: None,
        audio_timestamp: None,
        enable_affective_dialog: None,
    }
}

impl GenerationConfig {
    /// A generation configuration of the given values.
    pub fn new(
        stop_sequences: Option<Vec<String>>,
        response_mime_type: Option<String>,
        response_json_schema: Option<Json>,
        response_modalities: Option<Vec<Modality>>,
        thinking_config: Option<GeminiThinkingConfig>,
        temperature_bits: Option<u32>,
        top_p_bits: Option<u32>,
        top_k: Option<i32>,
        candidate_count: Option<i32>,
        max_output_tokens: Option<i32>,
        response_logprobs: Option<bool>,
        logprobs: Option<i32>,
        presence_penalty_bits: Option<u32>,
        frequency_penalty_bits: Option<u32>,
        seed: Option<i32>,
        audio_timestamp: Option<bool>,
        media_resolution: Option<MediaResolution>,
        speech_config: Option<SpeechConfig>,
        enable_affective_dialog: Option<bool>,
        enable_enhanced_civic_answers: Option<bool>,
        image_config: Option<ImageConfig>,
    ) -> (r: GenerationConfig)
        ensures
            r == (GenerationConfig {
                stop_sequences,
                response_mime_type,
                response_json_schema,
                response_modalities,
                candidate_count,
                max_output_tokens,
                temperature_bits,
                top_p_bits,
                top_k,
                presence_penalty_bits,
                frequency_penalty_bits,
                seed,
                response_logprobs,
                logprobs,
                enable_enhanced_civic_answers,
                speech_config,
                thinking_config,
                image_config,
                media_resolution,
                audio_timestamp,
                enable_affective_dialog,
            }),
    {
        GenerationConfig {
            stop_sequences,
            response_mime_type,
            response_json_schema,
            response_modalities,
            candidate_count,
            max_output_tokens,
            temperature_bits,
            top_p_bits,
            top_k,
            presence_penalty_bits,
            frequency_penalty_bits,
            seed,
            response_logprobs,
            logprobs,
            enable_enhanced_civic_answers,
            speech_config,
            thinking_config,
            image_config,
            media_resolution,
            audio_timestamp,
            enable_affective_dialog,
        }
    }
}

/// The settings of a request to a Gemini model. The labels are pairs of a key
/// and a value.
#[derive(Debug, PartialEq)]
pub struct GeminiSettings {
    pub labels: Option<Vec<(String, String)>>,
    pub tool_config: Option<ToolConfig>,
    pub generation_config: Option<GenerationConfig>,
    pub safety_settings: Option<Vec<SafetySetting>>,
    pub model_armor_config: Option<ModelArmorConfig>,
    pub extra_body: Option<Json>,
    pub cached_content: Option<String>,
    pub tools: Option<Vec<GeminiTool>>,
}

/// Gemini settings with nothing set.
pub open spec fn empty_gemini_settings() -> GeminiSettings {
    GeminiSettings {
        labels: None,
        tool_config: None,
        generation_config: None,
        safety_settings: None,
        model_armor_config: None,
        extra_body: None,
        cached_content: None,
        tools: None,
    }
}

/// `t` is `s` set to ask for JSON that follows `schema`: the generation
/// configuration (an empty one when `s` has none) gets the JSON media type and
/// the schema, and nothing else changes.
pub open spec fn structured_settings(s: GeminiSettings, t: GeminiSettings, schema: Json) -> bool {
    let base = match s.generation_config {
        Some(g) => g,
        None => empty_generation_config(),
    };
    &&& t == (GeminiSettings { generation_config: t.generation_config, ..s })
    &&& t.generation_config matches Some(g) && g == (GenerationConfig {
        response_mime_type: g.response_mime_type,
        response_json_schema: Some(schema),
        ..base
    }) && (g.response_mime_type matches Some(m) && m@ == "application/json"@)
}

impl GeminiSettings {
    /// Settings of the given values.
    pub fn new(
        labels: Option<Vec<(String, String)>>,
        tool_config: Option<ToolConfig>,
        generation_config: Option<GenerationConfig>,
        safety_settings: Option<Vec<SafetySetting>>,
        model_armor_config: Option<ModelArmorConfig>,
        extra_body: Option<Json>,
        cached_content: Option<String>,
        tools: Option<Vec<GeminiTool>>,
    ) -> (r: Self)
        ensures
            r == (GeminiSettings {
                labels,
                tool_config,
                generation_config,
                safety_settings,
                model_armor_config,
                extra_body,
                cached_content,
                tools,
            }),
    {
        GeminiSettings {
            labels,
            tool_config,
            generation_config,
            safety_settings,
            model_armor_config,
            extra_body,
            cached_content,
            tools,
        }
    }

    /// The settings used when none are given: nothing set.
    pub fn default_settings() -> (r: Self)
        ensures
            r == empty_gemini_settings(),
    {
        GeminiSettings {
            labels: None,
            tool_config: None,
            generation_config: None,
            safety_settings: None,
            model_armor_config: None,
            extra_body: None,
            cached_content: None,
            tools: None,
        }
    }

    /// Asks for JSON that follows `response_json_schema`, creating the generation
    /// settings when there are none.
    pub fn configure_for_structured_output(&mut self, response_json_schema: Json)
        ensures
            structured_settings(*old(self), *final(self), response_json_schema),
    {
        let config = match self.generation_config.take() {
            Some(g) => GenerationConfig {
                response_mime_type: Some("application/json".to_owned()),
                response_json_schema: Some(response_json_schema),
                ..g
            },
            None => GenerationConfig {
                stop_sequences: None,
                response_mime_type: Some("application/json".to_owned()),
                response_json_schema: Some(response_json_schema),
                response_modalities: None,
                candidate_count: None,
                max_output_tokens: None,
                temperature_bits: None,
                top_p_bits: None,
                top_k: None,
                presence_penalty_bits: None,
                frequency_penalty_bits: None,
                seed: None,
                response_logprobs: None,
                logprobs: None,
                enable_enhanced_civic_answers: None,
                speech_config: None,
                thinking_config: None,
                image_config: None,
                media_resolution: None,
                audio_timestamp: None,
                enable_affective_dialog: None,
            },
        };
        self.generation_config = Some(config);
    }
}

/// The settings of a request, for one of the three providers.
#[derive(Debug, PartialEq)]
pub enum ModelSettings {
    OpenAIChat(OpenAIChatSettings),
    GoogleChat(GeminiSettings),
    AnthropicChat(AnthropicSettings),
}

/// Whether settings fit a provider: each provider takes its own kind, and an
/// undefined provider takes any.
pub open spec fn settings_fit(s: ModelSettings, p: Provider) -> bool {
    match p {
        Provider::OpenAI => s is OpenAIChat,
        Provider::Gemini | Provider::Vertex | Provider::Google => s is GoogleChat,
        Provider::Anthropic => s is AnthropicChat,
        Provider::Undefined => true,
    }
}

impl ModelSettings {
    /// Checks that the settings fit `provider`.
    pub fn validate_provider(&self, provider: &Provider) -> (r: Result<(), TypeError>)
        ensures
            settings_fit(*self, *provider) ==> r is Ok,
            !settings_fit(*self, *provider) ==> r == Err::<(), TypeError>(TypeError::InvalidModelSettings),
    {
        match provider {
            Provider::OpenAI => match self {
                ModelSettings::OpenAIChat(_) => Ok(()),
                _ => Err(TypeError::InvalidModelSettings),
            },
            Provider::Gemini | Provider::Vertex | Provider::Google => match self {
                ModelSettings::GoogleChat(_) => Ok(()),
                _ => Err(TypeError::InvalidModelSettings),
            },
            Provider::Anthropic => match self {
                ModelSettings::AnthropicChat(_) => Ok(()),
                _ => Err(TypeError::InvalidModelSettings),
            },
            Provider::Undefined => Ok(()),
        }
    }

    /// The settings used for a provider when none are given: Gemini settings for
    /// Gemini and OpenAI settings for every other provider.
    pub fn provider_default_settings(provider: &Provider) -> (r: ModelSettings)
        ensures
            *provider == Provider::Gemini ==> r == ModelSettings::GoogleChat(empty_gemini_settings()),
            *provider != Provider::Gemini ==> r is OpenAIChat && openai_defaults(r->OpenAIChat_0),
    {
        match provider {
            Provider::Gemini => ModelSettings::GoogleChat(GeminiSettings::default_settings()),
            _ => ModelSettings::OpenAIChat(OpenAIChatSettings::default_settings()),
        }
    }

    /// The provider that the settings are for.
    pub fn provider(&self) -> (r: Provider)
        ensures
            r == (match *self {
                ModelSettings::OpenAIChat(_) => Provider::OpenAI,
                ModelSettings::GoogleChat(_) => Provider::Gemini,
                ModelSettings::AnthropicChat(_) => Provider::Anthropic,
            }),
    {
        match self {
            ModelSettings::OpenAIChat(_) => Provider::OpenAI,
            ModelSettings::GoogleChat(_) => Provider::Gemini,
            ModelSettings::AnthropicChat(_) => Provider::Anthropic,
        }
    }
}

} // verus!
