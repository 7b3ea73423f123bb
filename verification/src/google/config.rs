use vstd::prelude::*;

use crate::error::TypeError;

verus! {

/// A kind of harmful content.
#[derive(Debug, Clone, Copy, PartialEq, Eq, Structural)]
pub enum HarmCategory {
    HarmCategoryUnspecified,
    HarmCategoryDerogatory,
    HarmCategoryToxicity,
    HarmCategoryViolence,
    HarmCategorySexual,
    HarmCategoryMedical,
    HarmCategoryDangerous,
    HarmCategoryHarassment,
    HarmCategoryHateSpeech,
    HarmCategorySexuallyExplicit,
    HarmCategoryDangerousContent,
}

/// From which likelihood of harm content is blocked.
#[derive(Debug, Clone, Copy, PartialEq, Eq, Structural)]
pub enum HarmBlockThreshold {
    HarmBlockThresholdUnspecified,
    BlockLowAndAbove,
    BlockMediumAndAbove,
    BlockOnlyHigh,
    BlockNone,
    Off,
}

/// What the blocking threshold is measured on.
#[derive(Debug, Clone, Copy, PartialEq, Eq, Structural)]
pub enum HarmBlockMethod {
    HarmBlockMethodUnspecified,
    Severity,
    Probability,
}

/// How content of one kind of harm is blocked.
#[derive(Debug, Clone, Copy, PartialEq, Eq, Structural)]
pub struct SafetySetting {
    pub category: HarmCategory,
    pub threshold: HarmBlockThreshold,
}

impl SafetySetting {
    /// Blocks content of `category` from `threshold` on.
    pub fn new(category: HarmCategory, threshold: HarmBlockThreshold) -> (r: SafetySetting)
        ensures
            r == (SafetySetting { category, threshold }),
    {
        SafetySetting { category, threshold }
    }
}

/// A kind of content that a model reads or writes.
#[derive(Debug, Clone, Copy, PartialEq, Eq, Structural)]
pub enum Modality {
    ModalityUnspecified,
    Text,
    Image,
    Audio,
    Video,
    Document,
}

/// What automatic routing between models favours.
#[derive(Debug, Clone, Copy, PartialEq, Eq, Structural)]
pub enum ModelRoutingPreference {
    Unknown,
    PrioritizeQuality,
    Balanced,
    PrioritizeCost,
}

/// How much a Gemini model thinks.
#[derive(Debug, Clone, Copy, PartialEq, Eq, Structural)]
pub enum ThinkingLevel {
    ThinkingLevelUnspecified,
    Low,
    High,
}

/// How a Gemini model thinks before it answers.
#[derive(Debug, Clone, Copy, PartialEq, Eq, Structural)]
pub struct GeminiThinkingConfig {
    pub include_thoughts: Option<bool>,
    pub thinking_budget: Option<i32>,
    pub thinking_level: Option<ThinkingLevel>,
}

impl GeminiThinkingConfig {
    /// A thinking configuration of the given values.
    pub fn new(
        include_thoughts: Option<bool>,
        thinking_budget: Option<i32>,
        thinking_level: Option<ThinkingLevel>,
    ) -> (r: GeminiThinkingConfig)
        ensures
            r == (GeminiThinkingConfig { include_thoughts, thinking_budget, thinking_level }),
    {
        GeminiThinkingConfig { include_thoughts, thinking_budget, thinking_level }
    }
}

/// The shape of images that a model generates.
#[derive(Debug, Clone, PartialEq)]
pub struct ImageConfig {
    pub aspect_ratio: Option<String>,
    pub image_size: Option<String>,
}

impl ImageConfig {
    /// An image configuration of the given values.
    pub fn new(aspect_ratio: Option<String>, image_size: Option<String>) -> (r: ImageConfig)
        ensures
            r == (ImageConfig { aspect_ratio, image_size }),
    {
        ImageConfig { aspect_ratio, image_size }
    }
}

/// Automatic routing between models.
#[derive(Debug, Clone, Copy, PartialEq, Eq, Structural)]
pub struct AutoRoutingMode {
    pub model_routing_preference: Option<ModelRoutingPreference>,
}

impl AutoRoutingMode {
    /// Automatic routing with the given preference.
    pub fn new(model_routing_preference: Option<ModelRoutingPreference>) -> (r: AutoRoutingMode)
        ensures
            r == (AutoRoutingMode { model_routing_preference }),
    {
        AutoRoutingMode { model_routing_preference }
    }
}

/// Routing to one named model.
#[derive(Debug, Clone, PartialEq)]
pub struct ManualRoutingMode {
    pub model_name: String,
}

impl ManualRoutingMode {
    /// Routing to `model_name`.
    pub fn new(model_name: String) -> (r: ManualRoutingMode)
        ensures
            r == (ManualRoutingMode { model_name }),
    {
        ManualRoutingMode { model_name }
    }
}

/// Automatic or manual routing.
#[derive(Debug, Clone, PartialEq)]
pub enum RoutingConfigMode {
    AutoMode(AutoRoutingMode),
    ManualMode(ManualRoutingMode),
}

impl RoutingConfigMode {
    /// The routing that exactly one of the two arguments gives; fails with
    /// `MissingRoutingConfigMode` when both or neither are given.
    pub fn new(auto_mode: Option<AutoRoutingMode>, manual_mode: Option<ManualRoutingMode>) -> (r: Result<
        RoutingConfigMode,
        TypeError,
    >)
        ensures
            match (auto_mode, manual_mode) {
                (Some(a), None) => r == Ok::<RoutingConfigMode, TypeError>(RoutingConfigMode::AutoMode(a)),
                (None, Some(m)) => r == Ok::<RoutingConfigMode, TypeError>(RoutingConfigMode::ManualMode(m)),
                _ => r == Err::<RoutingConfigMode, TypeError>(TypeError::MissingRoutingConfigMode),
            },
    {
        match (auto_mode, manual_mode) {
            (Some(a), None) => Ok(RoutingConfigMode::AutoMode(a)),
            (None, Some(m)) => Ok(RoutingConfigMode::ManualMode(m)),
            _ => Err(TypeError::MissingRoutingConfigMode),
        }
    }
}

/// How a request is routed between models.
#[derive(Debug, Clone, PartialEq)]
pub struct RoutingConfig {
    pub routing_config: RoutingConfigMode,
}

impl RoutingConfig {
    /// Routing by `routing_config`.
    pub fn new(routing_config: RoutingConfigMode) -> (r: RoutingConfig)
        ensures
            r == (RoutingConfig { routing_config }),
    {
        RoutingConfig { routing_config }
    }
}

/// A voice that the provider offers.
#[derive(Debug, Clone, PartialEq)]
pub struct PrebuiltVoiceConfig {
    pub voice_name: String,
}

impl PrebuiltVoiceConfig {
    /// The voice `voice_name`.
    pub fn new(voice_name: String) -> (r: PrebuiltVoiceConfig)
        ensures
            r == (PrebuiltVoiceConfig { voice_name }),
    {
        PrebuiltVoiceConfig { voice_name }
    }
}

/// The voice of spoken answers.
#[derive(Debug, Clone, PartialEq)]
pub struct VoiceConfig {
    pub prebuilt_voice_config: PrebuiltVoiceConfig,
}

impl VoiceConfig {
    /// Speaking with `prebuilt_voice_config`.
    pub fn new(prebuilt_voice_config: PrebuiltVoiceConfig) -> (r: VoiceConfig)
        ensures
            r == (VoiceConfig { prebuilt_voice_config }),
    {
        VoiceConfig { prebuilt_voice_config }
    }
}

/// The voice of one speaker.
#[derive(Debug, Clone, PartialEq)]
pub struct SpeakerVoiceConfig {
    pub speaker: String,
    pub voice_config: VoiceConfig,
}

impl SpeakerVoiceConfig {
    /// `speaker` speaks with `voice_config`.
    pub fn new(speaker: String, voice_config: VoiceConfig) -> (r: SpeakerVoiceConfig)
        ensures
            r == (SpeakerVoiceConfig { speaker, voice_config }),
    {
        SpeakerVoiceConfig { speaker, voice_config }
    }
}

/// The voices of several speakers.
#[derive(Debug, Clone, PartialEq)]
pub struct MultiSpeakerVoiceConfig {
    pub speaker_voice_configs: Vec<SpeakerVoiceConfig>,
}

impl MultiSpeakerVoiceConfig {
    /// The voices `speaker_voice_configs`.
    pub fn new(speaker_voice_configs: Vec<SpeakerVoiceConfig>) -> (r: MultiSpeakerVoiceConfig)
        ensures
            r == (MultiSpeakerVoiceConfig { speaker_voice_configs }),
    {
        MultiSpeakerVoiceConfig { speaker_voice_configs }
    }
}

/// How spoken answers sound.
#[derive(Debug, Clone, PartialEq)]
pub struct SpeechConfig {
    pub voice_config: Option<VoiceConfig>,
    pub multi_speaker_voice_config: Option<MultiSpeakerVoiceConfig>,
    pub language_code: Option<String>,
}

impl SpeechConfig {
    /// A speech configuration of the given values.
    pub fn new(
        voice_config: Option<VoiceConfig>,
        multi_speaker_voice_config: Option<MultiSpeakerVoiceConfig>,
        language_code: Option<String>,
    ) -> (r: SpeechConfig)
        ensures
            r == (SpeechConfig { voice_config, multi_speaker_voice_config, language_code }),
    {
        SpeechConfig { voice_config, multi_speaker_voice_config, language_code }
    }
}

/// The templates that screen prompts and answers.
#[derive(Debug, Clone, PartialEq)]
pub struct ModelArmorConfig {
    pub prompt_template_name: Option<String>,
    pub response_template_name: Option<String>,
}

impl ModelArmorConfig {
    /// Screening with the given templates.
    pub fn new(prompt_template_name: Option<String>, response_template_name: Option<String>) -> (r: ModelArmorConfig)
        ensures
            r == (ModelArmorConfig { prompt_template_name, response_template_name }),
    {
        ModelArmorConfig { prompt_template_name, response_template_name }
    }
}

/// When the model calls functions.
#[derive(Debug, Clone, Copy, PartialEq, Eq, Structural)]
pub enum Mode {
    ModeUnspecified,
    Validated,
    Any,
    Auto,
    NoneMode,
}

/// How the model calls functions.
#[derive(Debug, Clone, PartialEq)]
pub struct FunctionCallingConfig {
    pub mode: Option<Mode>,
    pub allowed_function_names: Option<Vec<String>>,
}

impl FunctionCallingConfig {
    /// Calling functions in `mode`, among `allowed_function_names` when given.
    pub fn new(mode: Option<Mode>, allowed_function_names: Option<Vec<String>>) -> (r: FunctionCallingConfig)
        ensures
            r == (FunctionCallingConfig { mode, allowed_function_names }),
    {
        FunctionCallingConfig { mode, allowed_function_names }
    }
}

/// The language in which retrieval tools search.
#[derive(Debug, Clone, PartialEq)]
pub struct RetrievalConfig {
    pub language_code: String,
}

impl RetrievalConfig {
    /// Searching in `language_code`.
    pub fn new(language_code: String) -> (r: RetrievalConfig)
        ensures
            r == (RetrievalConfig { language_code }),
    {
        RetrievalConfig { language_code }
    }
}

/// How the model uses its tools.
#[derive(Debug, Clone, PartialEq)]
pub struct ToolConfig {
    pub function_calling_config: Option<FunctionCallingConfig>,
    pub retrieval_config: Option<RetrievalConfig>,
}

impl ToolConfig {
    /// A tool configuration of the given values.
    pub fn new(
        function_calling_config: Option<FunctionCallingConfig>,
        retrieval_config: Option<RetrievalConfig>,
    ) -> (r: ToolConfig)
        ensures
            r == (ToolConfig { function_calling_config, retrieval_config }),
    {
        ToolConfig { function_calling_config, retrieval_config }
    }
}

} // verus!
