//! An adapter that lets a client speaking a canonical chat-completion schema
//! talk to a Gemini-style generative-model service: it resolves the active
//! authentication strategy, transforms requests and responses between the two
//! schemas, and builds the provider endpoint URL.

pub mod models;
pub mod wire;
pub mod digits;
pub mod clock;
pub mod transform;
pub mod auth;
pub mod provider;
pub mod dispatch;
pub mod laws;
