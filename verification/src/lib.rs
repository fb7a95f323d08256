//! Request lifecycle rules of a small HTTP service: how failures are
//! classified and rendered, how the middleware stack is ordered, and how the
//! process drains and tears down on shutdown.

pub mod business;
pub mod configs;
pub mod types;
pub mod utils;
pub mod views;
