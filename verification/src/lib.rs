//! Zero-allocation HTTP/1.x header encoding.
//!
//! A request line or status line, headers and the closing blank line are
//! written straight into a caller's byte sink. Every token is validated
//! before it is written, and every write is checked against the room that
//! the sink has left.
//!
//! - `sink`: the sink and the body source, and what is assumed of them
//! - `types`: methods, versions, identifiers, status codes, errors
//! - `grammar`: the byte classes of tokens, header values and identifiers
//! - `encode`: what each writer appends, as functions on byte sequences
//! - `util`: the writers of tokens and start lines
//! - `http`, `request`, `response`: the builders
//! - `laws`: what holds of the encoding for every input

pub mod sink;
pub mod types;
pub mod grammar;
pub mod encode;
pub mod util;
pub mod laws;
pub mod http;
pub mod request;
pub mod response;

pub use crate::http::HttpBuilder;
pub use crate::request::RequestBuilder;
pub use crate::response::ResponseBuilder;
pub use crate::types::{Error, Method, OutOfBufferError, Status, Uri, Version};
