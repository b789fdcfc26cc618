//! Speech-to-text: transcription requests as multipart uploads.

pub mod client;
pub mod error;
pub mod laws;
pub mod multipart;
pub mod types;

pub use client::{TranscriptionClient, TranscriptionRequestBuilder};
pub use error::SttError;
pub use types::{
    Model, ResponseFormat, TokenDetails, TranscriptionRequest, TranscriptionResponse, Usage,
};
