//! Conversation storage and HTTP decisions for an OpenAI-compatible
//! conversations API.
//!
//! The library holds the rules of the conversation store (ownership checks,
//! cursor resolution, revision bumps, error mapping) as verified state machines
//! over an abstract database protocol, and the request validation and response
//! shaping of the HTTP handlers. Database access and HTTP transport are driven
//! by the caller, which performs each requested database action and feeds back
//! the reply.

pub mod model;
pub mod error;
pub mod json;
pub mod db;
pub mod store;
pub mod machines;
pub mod laws;
pub mod sql;
pub mod http;
