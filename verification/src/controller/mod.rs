//! The decisions of the HTTP handlers: which command a request becomes and
//! which response a reply becomes.

pub mod todo;
pub mod util;
