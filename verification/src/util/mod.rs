//! Helpers shared by the store and the HTTP boundary.

pub mod body;
pub mod http_response;
pub mod json;
pub mod text;
