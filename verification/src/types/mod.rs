//! Plain data shared by every layer of the service.

pub mod api;
pub mod api_response;
pub mod identifier;
pub mod status;
