pub mod json;
pub mod changeset;
pub mod error;
pub mod response;
pub mod endpoint;
pub mod request;
pub mod operations;
