pub mod adk;
pub mod config;
pub mod tools;
pub mod predict;
pub mod embedding;
pub mod grounding;
pub mod request;
pub mod response;
