use vstd::prelude::*;

verus! {

/// How OpenAI embeddings are made.
#[derive(Debug, Clone, PartialEq, Eq)]
pub struct OpenAIEmbeddingConfig {
    pub model: String,
    pub dimensions: Option<i32>,
    pub encoding_format: Option<String>,
    pub user: Option<String>,
}

impl OpenAIEmbeddingConfig {
    /// A configuration for the model.
    pub fn new(model: String, dimensions: Option<i32>, encoding_format: Option<String>, user: Option<String>) -> (r: Self)
        ensures
            r == (OpenAIEmbeddingConfig { model, dimensions, encoding_format, user }),
    {
        OpenAIEmbeddingConfig { model, dimensions, encoding_format, user }
    }
}

} // verus!
