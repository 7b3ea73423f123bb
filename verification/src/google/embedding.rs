use vstd::prelude::*;

use crate::error::TypeError;
use crate::google::request::{plain_part, DataNum, GeminiContent, Part};
use crate::json::{entries_view, lemma_entries_view, Json, JsonV};
use crate::text::{i32_text, int_text};
use crate::types::{role_name, Role};

verus! {

/// What an embedding is used for.
#[derive(Debug, Clone, Copy, PartialEq, Eq, Structural)]
pub enum EmbeddingTaskType {
    TaskTypeUnspecified,
    RetrievalQuery,
    RetrievalDocument,
    SemanticSimilarity,
    Classification,
    Clustering,
    QuestionAnswering,
    FactVerification,
    CodeRetrievalQuery,
}

/// The name under which a task type is sent.
pub open spec fn task_type_name(t: EmbeddingTaskType) -> Seq<char> {
    match t {
        EmbeddingTaskType::TaskTypeUnspecified => "TASK_TYPE_UNSPECIFIED"@,
        EmbeddingTaskType::RetrievalQuery => "RETRIEVAL_QUERY"@,
        EmbeddingTaskType::RetrievalDocument => "RETRIEVAL_DOCUMENT"@,
        EmbeddingTaskType::SemanticSimilarity => "SEMANTIC_SIMILARITY"@,
        EmbeddingTaskType::Classification => "CLASSIFICATION"@,
        EmbeddingTaskType::Clustering => "CLUSTERING"@,
        EmbeddingTaskType::QuestionAnswering => "QUESTION_ANSWERING"@,
        EmbeddingTaskType::FactVerification => "FACT_VERIFICATION"@,
        EmbeddingTaskType::CodeRetrievalQuery => "CODE_RETRIEVAL_QUERY"@,
    }
}

impl EmbeddingTaskType {
    /// The name under which the task type is sent.
    pub fn as_str(&self) -> (r: &'static str)
        ensures
            r@ == task_type_name(*self),
    {
        match self {
            EmbeddingTaskType::TaskTypeUnspecified => "TASK_TYPE_UNSPECIFIED",
            EmbeddingTaskType::RetrievalQuery => "RETRIEVAL_QUERY",
            EmbeddingTaskType::RetrievalDocument => "RETRIEVAL_DOCUMENT",
            EmbeddingTaskType::SemanticSimilarity => "SEMANTIC_SIMILARITY",
            EmbeddingTaskType::Classification => "CLASSIFICATION",
            EmbeddingTaskType::Clustering => "CLUSTERING",
            EmbeddingTaskType::QuestionAnswering => "QUESTION_ANSWERING",
            EmbeddingTaskType::FactVerification => "FACT_VERIFICATION",
            EmbeddingTaskType::CodeRetrievalQuery => "CODE_RETRIEVAL_QUERY",
        }
    }
}

/// How Gemini embeddings are made.
#[derive(Debug, Clone, PartialEq, Eq)]
pub struct GeminiEmbeddingConfig {
    pub model: Option<String>,
    pub output_dimensionality: Option<i32>,
    pub task_type: Option<EmbeddingTaskType>,
    pub is_configured: bool,
}

/// The parameters of a prediction request for the configuration: the output
/// dimensionality and the task type, where set.
pub open spec fn predict_entries(c: GeminiEmbeddingConfig) -> Seq<(Seq<char>, JsonV)> {
    (match c.output_dimensionality {
        Some(d) => seq![("outputDimensionality"@, JsonV::Number(int_text(d as int)))],
        None => Seq::empty(),
    }) + (match c.task_type {
        Some(t) => seq![("task_type"@, JsonV::Str(task_type_name(t)))],
        None => Seq::empty(),
    })
}

/// The parameters as a JSON document: null when there are none.
pub open spec fn predict_parameters(c: GeminiEmbeddingConfig) -> JsonV {
    if predict_entries(c).len() == 0 {
        JsonV::Null
    } else {
        JsonV::Object(predict_entries(c))
    }
}

impl GeminiEmbeddingConfig {
    /// A configuration; a model or a task type must be given. It counts as
    /// configured when a dimensionality or a task type is set.
    pub fn new(model: Option<String>, output_dimensionality: Option<i32>, task_type: Option<EmbeddingTaskType>) -> (r: Result<
        Self,
        TypeError,
    >)
        ensures
            model is None && task_type is None ==> (r matches Err(TypeError::GeminiEmbeddingConfigError(m)) && m@
                == "Either 'model' or 'task_type' must be provided."@),
            !(model is None && task_type is None) ==> r == Ok::<GeminiEmbeddingConfig, TypeError>(
                GeminiEmbeddingConfig {
                    model,
                    output_dimensionality,
                    task_type,
                    is_configured: output_dimensionality is Some || task_type is Some,
                },
            ),
    {
        if model.is_none() && task_type.is_none() {
            return Err(TypeError::GeminiEmbeddingConfigError("Either 'model' or 'task_type' must be provided.".to_owned()));
        }
        let is_configured = output_dimensionality.is_some() || task_type.is_some();
        Ok(GeminiEmbeddingConfig { model, output_dimensionality, task_type, is_configured })
    }

    /// The parameters of a prediction request.
    pub fn get_parameters_for_predict(&self) -> (r: Json)
        ensures
            r.view() == predict_parameters(*self),
    {
        let mut params: Vec<(String, Json)> = Vec::new();
        match self.output_dimensionality {
            Some(d) => {
                params.push(("outputDimensionality".to_owned(), Json::Number(i32_text(d))));
            },
            None => {},
        }
        let ghost first = entries_view(params@);
        match self.task_type {
            Some(t) => {
                params.push(("task_type".to_owned(), Json::Str(t.as_str().to_owned())));
                proof {
                    assert(entries_view(params@) =~= first.push(("task_type"@, JsonV::Str(task_type_name(t)))));
                }
            },
            None => {},
        }
        proof {
            assert(entries_view(params@) =~= predict_entries(*self));
        }
        if params.len() == 0 {
            Json::Null
        } else {
            proof {
                lemma_entries_view(params);
            }
            Json::Object(params)
        }
    }

    /// The model that makes the embeddings: the configured one, else `embedding-001`.
    pub fn get_model(&self) -> (r: &str)
        ensures
            r@ == match self.model {
                Some(m) => m@,
                None => "embedding-001"@,
            },
    {
        match &self.model {
            Some(m) => m.as_str(),
            None => "embedding-001",
        }
    }
}

/// A request for the embeddings of texts, with its configuration.
#[derive(Debug, PartialEq)]
pub struct GeminiEmbeddingRequest<T> {
    pub content: GeminiContent,
    pub embedding_config: Option<T>,
}

impl<T> GeminiEmbeddingRequest<T> {
    /// A request whose content is a user message holding each input as a
    /// plain text part, in order.
    pub fn new(inputs: Vec<String>, config: T) -> (r: Self)
        ensures
            r.content.role@ == role_name(Role::User),
            r.content.parts@.len() == inputs@.len(),
            forall|i: int|
                0 <= i < inputs@.len() ==> (#[trigger] r.content.parts@[i]).data == DataNum::Text(inputs@[i]) && plain_part(
                    r.content.parts@[i],
                ),
            r.embedding_config == Some(config),
    {
        let mut parts: Vec<Part> = Vec::new();
        let mut i: usize = 0;
        while i < inputs.len()
            invariant
                i <= inputs@.len(),
                parts@.len() == i,
                forall|k: int|
                    0 <= k < i ==> (#[trigger] parts@[k]).data == DataNum::Text(inputs@[k]) && plain_part(parts@[k]),
            decreases inputs@.len() - i,
        {
            parts.push(Part::from_text(inputs[i].clone()));
            i = i + 1;
        }
        GeminiEmbeddingRequest { content: GeminiContent { role: Role::User.to_string(), parts }, embedding_config: Some(config) }
    }
}

} // verus!
