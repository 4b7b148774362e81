//! A small compatibility layer for an API client: a unified error taxonomy
//! for the client's fallible operations, and a pollable asynchronous-value
//! abstraction with JSON-decoding helpers built on top of it.

pub mod error;
pub mod future;
