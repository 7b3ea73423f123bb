use vstd::prelude::*;

use crate::error::TypeError;
use crate::json::Json;

verus! {

/// The voice and format of spoken output.
#[derive(Debug, Clone, PartialEq)]
pub struct AudioParam {
    pub format: String,
    pub voice: String,
}

impl AudioParam {
    /// Audio output in `format` with `voice`.
    pub fn new(format: String, voice: String) -> (r: Self)
        ensures
            r == (AudioParam { format, voice }),
    {
        AudioParam { format, voice }
    }
}

/// A part of predicted output.
#[derive(Debug, Clone, PartialEq)]
pub struct PredictionContentPart {
    pub kind: String,
    pub text: String,
}

impl PredictionContentPart {
    /// A predicted piece of text.
    pub fn new(kind: String, text: String) -> (r: Self)
        ensures
            r == (PredictionContentPart { kind, text }),
    {
        PredictionContentPart { kind, text }
    }
}

/// Predicted output: a text or a list of parts.
#[derive(Debug, Clone, PartialEq)]
pub enum Content {
    Text(String),
    Array(Vec<PredictionContentPart>),
}

impl Content {
    /// Predicted output from exactly one of a text and a list of parts.
    pub fn new(text: Option<String>, parts: Option<Vec<PredictionContentPart>>) -> (r: Result<Self, TypeError>)
        ensures
            match (text, parts) {
                (Some(t), None) => r == Ok::<Content, TypeError>(Content::Text(t)),
                (None, Some(p)) => r == Ok::<Content, TypeError>(Content::Array(p)),
                _ => r matches Err(TypeError::InvalidInput(m)) && m@
                    == "Either text or parts must be provided, but not both."@,
            },
    {
        match (text, parts) {
            (Some(t), None) => Ok(Content::Text(t)),
            (None, Some(p)) => Ok(Content::Array(p)),
            _ => Err(TypeError::InvalidInput("Either text or parts must be provided, but not both.".to_owned())),
        }
    }
}

/// Output that the model is told to expect.
#[derive(Debug, Clone, PartialEq)]
pub struct Prediction {
    pub kind: String,
    pub content: Content,
}

impl Prediction {
    /// Predicted output of the kind `kind`.
    pub fn new(kind: String, content: Content) -> (r: Self)
        ensures
            r == (Prediction { kind, content }),
    {
        Prediction { kind, content }
    }
}

/// Options of a streamed answer.
#[derive(Debug, Clone, Copy, PartialEq, Eq, Structural)]
pub struct StreamOptions {
    pub include_obfuscation: Option<bool>,
    pub include_usage: Option<bool>,
}

impl StreamOptions {
    /// Stream options of the given values.
    pub fn new(include_obfuscation: Option<bool>, include_usage: Option<bool>) -> (r: Self)
        ensures
            r == (StreamOptions { include_obfuscation, include_usage }),
    {
        StreamOptions { include_obfuscation, include_usage }
    }
}

/// Whether the model may, must or must not call tools.
#[derive(Debug, Clone, Copy, PartialEq, Eq, Structural)]
pub enum ToolChoiceMode {
    NA,
    Auto,
    Required,
}

/// The name under which a tool choice mode is sent.
pub open spec fn tool_choice_mode_name(m: ToolChoiceMode) -> Seq<char> {
    match m {
        ToolChoiceMode::NA => "none"@,
        ToolChoiceMode::Auto => "auto"@,
        ToolChoiceMode::Required => "required"@,
    }
}

impl ToolChoiceMode {
    /// The name under which the mode is sent.
    pub fn as_str(&self) -> (r: &'static str)
        ensures
            r@ == tool_choice_mode_name(*self),
    {
        match self {
            ToolChoiceMode::NA => "none",
            ToolChoiceMode::Auto => "auto",
            ToolChoiceMode::Required => "required",
        }
    }
}

/// A function named in a tool choice.
#[derive(Debug, Clone, PartialEq, Eq)]
pub struct FunctionChoice {
    pub name: String,
}

impl FunctionChoice {
    /// Choosing the function `name`.
    pub fn new(name: String) -> (r: Self)
        ensures
            r == (FunctionChoice { name }),
    {
        FunctionChoice { name }
    }
}

/// A tool choice that names a function.
#[derive(Debug, Clone, PartialEq, Eq)]
pub struct FunctionToolChoice {
    pub kind: String,
    pub function: FunctionChoice,
}

impl FunctionToolChoice {
    /// Choosing the function tool `function`.
    pub fn new(function: FunctionChoice) -> (r: Self)
        ensures
            r.kind@ == "function"@ && r.function == function,
    {
        FunctionToolChoice { kind: "function".to_owned(), function }
    }
}

/// A custom tool named in a tool choice.
#[derive(Debug, Clone, PartialEq, Eq)]
pub struct CustomChoice {
    pub name: String,
}

impl CustomChoice {
    /// Choosing the custom tool `name`.
    pub fn new(name: String) -> (r: Self)
        ensures
            r == (CustomChoice { name }),
    {
        CustomChoice { name }
    }
}

/// A tool choice that names a custom tool.
#[derive(Debug, Clone, PartialEq, Eq)]
pub struct CustomToolChoice {
    pub kind: String,
    pub custom: CustomChoice,
}

impl CustomToolChoice {
    /// Choosing the custom tool `custom`.
    pub fn new(custom: CustomChoice) -> (r: Self)
        ensures
            r.kind@ == "custom"@ && r.custom == custom,
    {
        CustomToolChoice { kind: "custom".to_owned(), custom }
    }
}

/// A function tool named among allowed tools.
#[derive(Debug, Clone, PartialEq, Eq)]
pub struct ToolDefinition {
    pub kind: String,
    pub function: FunctionChoice,
}

impl ToolDefinition {
    /// A function tool named `function_name`.
    pub fn new(function_name: String) -> (r: Self)
        ensures
            r.kind@ == "function"@ && r.function.name == function_name,
    {
        ToolDefinition { kind: "function".to_owned(), function: FunctionChoice::new(function_name) }
    }
}

/// Whether the model may or must call one of the allowed tools.
#[derive(Debug, Clone, Copy, PartialEq, Eq, Structural)]
pub enum AllowedToolsMode {
    Auto,
    Required,
}

/// The allowed tools and their mode.
#[derive(Debug, Clone, PartialEq, Eq)]
pub struct InnerAllowedTools {
    pub mode: AllowedToolsMode,
    pub tools: Vec<ToolDefinition>,
}

/// A tool choice that limits the model to some tools.
#[derive(Debug, Clone, PartialEq, Eq)]
pub struct AllowedTools {
    pub kind: String,
    pub allowed_tools: InnerAllowedTools,
}

impl AllowedTools {
    /// Restricting the model to `tools`, in `mode`.
    pub fn new(mode: AllowedToolsMode, tools: Vec<ToolDefinition>) -> (r: Self)
        ensures
            r.kind@ == "allowed_tools"@ && r.allowed_tools == (InnerAllowedTools { mode, tools }),
    {
        AllowedTools { kind: "allowed_tools".to_owned(), allowed_tools: InnerAllowedTools { mode, tools } }
    }

    /// Allowed tools that name the functions, in order.
    pub fn from_function_names(mode: AllowedToolsMode, function_names: Vec<String>) -> (r: Self)
        ensures
            r.kind@ == "allowed_tools"@,
            r.allowed_tools.mode == mode,
            r.allowed_tools.tools@.len() == function_names@.len(),
            forall|i: int|
                0 <= i < function_names@.len() ==> (#[trigger] r.allowed_tools.tools@[i]).kind@ == "function"@
                    && r.allowed_tools.tools@[i].function.name == function_names@[i],
    {
        let mut tools: Vec<ToolDefinition> = Vec::new();
        let mut i: usize = 0;
        while i < function_names.len()
            invariant
                i <= function_names@.len(),
                tools@.len() == i,
                forall|k: int|
                    0 <= k < i ==> (#[trigger] tools@[k]).kind@ == "function"@ && tools@[k].function.name
                        == function_names@[k],
            decreases function_names@.len() - i,
        {
            tools.push(ToolDefinition::new(function_names[i].clone()));
            i = i + 1;
        }
        AllowedTools::new(mode, tools)
    }
}

/// Which tools the model may call.
#[derive(Debug, Clone, PartialEq, Eq)]
pub enum ToolChoice {
    Mode(ToolChoiceMode),
    Function(FunctionToolChoice),
    Custom(CustomToolChoice),
    Allowed(AllowedTools),
}

impl ToolChoice {
    /// Tool choice by mode.
    pub fn from_mode(mode: &ToolChoiceMode) -> (r: Self)
        ensures
            r == ToolChoice::Mode(*mode),
    {
        ToolChoice::Mode(*mode)
    }

    /// Choosing the function `function_name`.
    pub fn from_function(function_name: String) -> (r: Self)
        ensures
            r matches ToolChoice::Function(f) && f.kind@ == "function"@ && f.function.name == function_name,
    {
        ToolChoice::Function(FunctionToolChoice::new(FunctionChoice::new(function_name)))
    }

    /// Choosing the custom tool `custom_name`.
    pub fn from_custom(custom_name: String) -> (r: Self)
        ensures
            r matches ToolChoice::Custom(c) && c.kind@ == "custom"@ && c.custom.name == custom_name,
    {
        ToolChoice::Custom(CustomToolChoice::new(CustomChoice::new(custom_name)))
    }

    /// Choosing among the allowed tools.
    pub fn from_allowed_tools(allowed_tools: AllowedTools) -> (r: Self)
        ensures
            r == ToolChoice::Allowed(allowed_tools),
    {
        ToolChoice::Allowed(allowed_tools)
    }
}

impl Default for ToolChoice {
    /// The model decides whether to call tools.
    fn default() -> (r: Self)
        ensures
            r == ToolChoice::Mode(ToolChoiceMode::Auto),
    {
        ToolChoice::Mode(ToolChoiceMode::Auto)
    }
}

/// A function that the model may call.
#[derive(Debug, PartialEq)]
pub struct FunctionDefinition {
    pub name: String,
    pub description: Option<String>,
    pub parameters: Option<Json>,
    pub strict: Option<bool>,
}

impl FunctionDefinition {
    /// A function definition of the given values.
    pub fn new(name: String, description: Option<String>, parameters: Option<Json>, strict: Option<bool>) -> (r: Self)
        ensures
            r == (FunctionDefinition { name, description, parameters, strict }),
    {
        FunctionDefinition { name, description, parameters, strict }
    }
}

/// A function tool.
#[derive(Debug, PartialEq)]
pub struct FunctionTool {
    pub function: FunctionDefinition,
    pub kind: String,
}

impl FunctionTool {
    /// A function tool of the kind `kind`.
    pub fn new(function: FunctionDefinition, kind: String) -> (r: Self)
        ensures
            r == (FunctionTool { function, kind }),
    {
        FunctionTool { function, kind }
    }
}

/// Free-form text as the input of a custom tool.
#[derive(Debug, Clone, PartialEq)]
pub struct TextFormat {
    pub kind: String,
}

impl TextFormat {
    /// A text format of the kind `kind`.
    pub fn new(kind: String) -> (r: TextFormat)
        ensures
            r == (TextFormat { kind }),
    {
        TextFormat { kind }
    }
}

/// A grammar that the input of a custom tool follows.
#[derive(Debug, Clone, PartialEq, Eq)]
pub struct Grammar {
    pub definition: String,
    pub syntax: String,
}

impl Grammar {
    /// A grammar of `definition` in `syntax`.
    pub fn new(definition: String, syntax: String) -> (r: Self)
        ensures
            r == (Grammar { definition, syntax }),
    {
        Grammar { definition, syntax }
    }
}

/// A grammar format.
#[derive(Debug, Clone, PartialEq)]
pub struct GrammarFormat {
    pub grammar: Grammar,
    pub kind: String,
}

impl GrammarFormat {
    /// The format given by `grammar`, of the kind `kind`.
    pub fn new(grammar: Grammar, kind: String) -> (r: GrammarFormat)
        ensures
            r == (GrammarFormat { grammar, kind }),
    {
        GrammarFormat { grammar, kind }
    }
}

/// The format of the input of a custom tool.
#[derive(Debug, Clone, PartialEq)]
pub enum CustomToolFormat {
    Text(TextFormat),
    Grammar(GrammarFormat),
}

impl CustomToolFormat {
    /// A text format of the given type when only a type is given, a grammar
    /// format with an empty type when only a grammar is given, and else a text
    /// format with an empty type.
    pub fn new(kind: Option<String>, grammar: Option<Grammar>) -> (r: Self)
        ensures
            match (kind, grammar) {
                (Some(k), None) => r == CustomToolFormat::Text(TextFormat { kind: k }),
                (None, Some(g)) => r matches CustomToolFormat::Grammar(f) && f.grammar == g && f.kind@.len() == 0,
                _ => r matches CustomToolFormat::Text(t) && t.kind@.len() == 0,
            },
    {
        match (kind, grammar) {
            (Some(k), None) => CustomToolFormat::Text(TextFormat { kind: k }),
            (None, Some(g)) => CustomToolFormat::Grammar(GrammarFormat { grammar: g, kind: String::new() }),
            _ => CustomToolFormat::Text(TextFormat { kind: String::new() }),
        }
    }
}

/// A custom tool: its name, description and input format.
#[derive(Debug, Clone, PartialEq)]
pub struct CustomDefinition {
    pub name: String,
    pub description: Option<String>,
    pub format: Option<CustomToolFormat>,
}

impl CustomDefinition {
    /// A custom tool definition of the given values.
    pub fn new(name: String, description: Option<String>, format: Option<CustomToolFormat>) -> (r: Self)
        ensures
            r == (CustomDefinition { name, description, format }),
    {
        CustomDefinition { name, description, format }
    }
}

/// A custom tool.
#[derive(Debug, Clone, PartialEq)]
pub struct CustomTool {
    pub custom: CustomDefinition,
    pub kind: String,
}

impl CustomTool {
    /// A custom tool of the kind `kind`.
    pub fn new(custom: CustomDefinition, kind: String) -> (r: Self)
        ensures
            r == (CustomTool { custom, kind }),
    {
        CustomTool { custom, kind }
    }
}

/// A tool that an OpenAI model may call.
#[derive(Debug, PartialEq)]
pub enum Tool {
    Function(FunctionTool),
    Custom(CustomTool),
}

impl Tool {
    /// A tool from exactly one of a function tool and a custom tool.
    pub fn new(function: Option<FunctionTool>, custom: Option<CustomTool>) -> (r: Result<Self, TypeError>)
        ensures
            match (function, custom) {
                (Some(f), None) => r == Ok::<Tool, TypeError>(Tool::Function(f)),
                (None, Some(c)) => r == Ok::<Tool, TypeError>(Tool::Custom(c)),
                _ => r matches Err(TypeError::InvalidInput(m)) && m@ == "Invalid tool definition"@,
            },
    {
        match (function, custom) {
            (Some(f), None) => Ok(Tool::Function(f)),
            (None, Some(c)) => Ok(Tool::Custom(c)),
            _ => Err(TypeError::InvalidInput("Invalid tool definition".to_owned())),
        }
    }
}

} // verus!
