//! Typed client core for the Mathison service: request construction,
//! response classification and decoding of the service's JSON payloads.
//!
//! The crate performs no I/O. A transport sends an [`api::ApiRequest`] and
//! hands the status code and body text back to [`api::classify_response`],
//! then the parsed body to one of the decoders in [`model`].

pub mod api;
pub mod error;
pub mod json;
pub mod model;
pub mod text;

pub use api::{classify_response, ApiRequest, MathisonClient, Method};
pub use error::Error;
pub use json::Json;
pub use model::{
    Beam, BeamQuery, BeamQueryResponse, ChatHistoryResponse, ChatMessage, CreateBeamRequest,
    SendMessageResponse, TombstoneBeamRequest, UpdateBeamRequest,
};
