//! xAI chat-completions model adapter: request mapping, response
//! normalization, deferred-completion decisions and the model catalog.

pub mod deferred;
pub mod models;
pub mod request;
pub mod request_types;
pub mod response;
