pub mod request;
pub mod response;
