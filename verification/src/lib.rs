//! Verified core of a chat-archive export tool: a message renderer that turns
//! one structured message record into a display transcript, a batched export
//! pipeline with pluggable storage sinks, and a derived relationship graph.
pub mod balloon;
pub mod dates;
pub mod error;
pub mod http;
pub mod pipeline;
pub mod socket;
pub mod store;
pub mod surreal;
pub mod times;
pub mod transport;
pub mod model;
pub mod render;
pub mod txt;
