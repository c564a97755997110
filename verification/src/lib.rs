//! A policy-gated tool-calling agent core: a newline-delimited JSON-RPC
//! dialect spoken to a tool process, a permission gate consulted before
//! every tool invocation, and the transcript logic of a multi-turn
//! tool-use conversation.

pub mod agent;
pub mod client;
pub mod errors;
pub mod jsonio;
pub mod messages;
pub mod protocol;
pub mod security;
pub mod text;
pub mod wire;

