//! A small client for a chat-completion service: typed messages, an exact
//! wire format for requests, and the handling of what the transport returns.
pub mod client;
pub mod encoding;
pub mod json;
pub mod message;
