//! Core logic of a conversational-agent service: a bounded short-term
//! conversation memory, a long-term vector-memory bookkeeping layer, and the
//! encoder/decoder that turns a completion provider's structured reply into a
//! strictly typed reaction.
//!
//! The service around this library runs the transports (the streaming RPC,
//! the completion provider's HTTP endpoint, the vector database, the
//! embedding model); everything that decides or computes lives here, with a
//! proved contract.

pub mod context;
pub mod decode;
pub mod json;
pub mod memory;
pub mod messages;
pub mod reaction;
pub mod request;
pub mod store;
