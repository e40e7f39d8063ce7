//! The record model: the todo item and the three mutation intents.

pub mod todo;
