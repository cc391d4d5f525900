//! Client side of an Oblivious HTTP exchange, for callers across a foreign
//! function boundary: single-use request and response contexts, and a
//! per-thread record of the last failure.
pub mod config;
pub mod engine;
pub mod error;
pub mod context;
pub mod arena;
pub mod client;

pub use arena::Handle;
pub use client::Client;
pub use context::{decapsulate_response, encapsulate_request, RequestContext, ResponseContext};
pub use error::{ClientError, ErrorChannel, ErrorKind};
