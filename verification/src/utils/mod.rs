//! Text helpers and the error types built on them.

pub mod custom_errors;
pub mod json;
pub mod paths;
pub mod text;
