pub mod request;
pub mod response;
pub mod embedding;
pub mod settings;
