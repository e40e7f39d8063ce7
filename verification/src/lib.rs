//! A small todo service: a single-writer store of todo items, the commands
//! that drive it, and the decisions of the HTTP boundary around it.

pub mod controller;
pub mod db;
pub mod model;
pub mod router;
pub mod semantics;
pub mod util;
