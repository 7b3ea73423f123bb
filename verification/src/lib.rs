use vstd::prelude::*;

pub mod error;
pub mod json;
pub mod workflow;
pub mod template;
pub mod text;
pub mod types;
pub mod client;
pub mod media;
pub mod anthropic;
pub mod tools;
pub mod openai;
pub mod google;
pub mod message;
pub mod settings;
pub mod request;
pub mod prompt;
pub mod logprobs;
pub mod response;
pub mod spec;
