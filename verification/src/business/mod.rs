//! What the service does for its callers, and what it holds to do it.

pub mod controllers;
pub mod repositories;
