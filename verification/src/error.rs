use vstd::prelude::*;

verus! {

/// Errors of the JSON helpers.
#[derive(Debug, Clone, PartialEq)]
pub enum UtilError {
    RootMustBeObjectError,
    PyError(String),
}

/// Errors of the prompt, message and response types.
#[derive(Debug, Clone, PartialEq)]
pub enum TypeError {
    Error(String),
    UnknownProviderError(String),
    UnknownModelError(String),
    InvalidInput(String),
    InvalidMediaType(String),
    UnsupportedConversion(String),
    CantConvertSelf,
    UnsupportedProviderError,
    InvalidModelSettings,
    MoreThanOneSystemInstruction,
    EmptyOpenAIResponseContent,
    InvalidMessageTypeInList(String),
    InvalidDataType(String),
    InvalidListType(String),
    InvalidPartType,
    InvalidAuthConfig,
    InvalidOauthConfig,
    InvalidOidcConfig,
    GeminiEmbeddingConfigError(String),
    MissingRoutingConfigMode,
    InvalidRankingConfig,
    InvalidRetrievalSource,
}

/// Errors of the workflow types.
#[derive(Debug, Clone, PartialEq)]
pub enum WorkflowError {
    Error(String),
    MaxRetriesExceeded(String),
    TaskAlreadyExists(String),
    DependencyNotFound(String),
    TaskDependsOnItself(String),
}

} // verus!
