//! Core of a minimal greeter service: one request/response record pair and a
//! stateless handler that answers each name with a fixed greeting template.
//!
//! The transport that carries requests and replies lives outside this crate;
//! the handler here is a pure function of its input.

pub mod greeter;
pub mod messages;
