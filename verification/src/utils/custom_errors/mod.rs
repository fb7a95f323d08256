//! The failures the service knows and the responses it makes of them.

pub mod app_error;
pub mod app_exception;
pub mod err_response;
