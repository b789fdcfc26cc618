//! Errors of the transcription pipeline.

use vstd::prelude::*;
use crate::transport::{TransportError, TransportFailure};

verus! {

/// Why a transcription call gave no transcript.
#[derive(Debug, Clone)]
pub enum SttError {
    /// The transport failed, or the endpoint's address was refused.
    HttpClient(TransportError),
    /// A model given by name is not known. Kept for callers that take names
    /// from outside; the library's own selectors cannot be invalid.
    InvalidModel(String),
    /// An audio format given by name is not known. Kept as `InvalidModel` is.
    InvalidAudioFormat(String),
    /// The remote side answered with a status outside the success range.
    ApiError { status: u16, message: String },
    /// A success status came with a body that is no transcription record.
    ParseError(String),
    /// The client holds an empty API key.
    MissingApiKey,
    /// The form could not be built.
    MultipartError(String),
    /// The request holds no audio.
    MissingFile,
}

/// Model of an [`SttError`].
pub enum SttFailure {
    HttpClient(TransportFailure),
    InvalidModel(Seq<char>),
    InvalidAudioFormat(Seq<char>),
    ApiError { status: u16, message: Seq<char> },
    ParseError(Seq<char>),
    MissingApiKey,
    MultipartError(Seq<char>),
    MissingFile,
}

impl View for SttError {
    type V = SttFailure;

    open spec fn view(&self) -> SttFailure {
        match self {
            SttError::HttpClient(e) => SttFailure::HttpClient(e@),
            SttError::InvalidModel(name) => SttFailure::InvalidModel(name@),
            SttError::InvalidAudioFormat(name) => SttFailure::InvalidAudioFormat(name@),
            SttError::ApiError { status, message } => SttFailure::ApiError {
                status: *status,
                message: message@,
            },
            SttError::ParseError(detail) => SttFailure::ParseError(detail@),
            SttError::MissingApiKey => SttFailure::MissingApiKey,
            SttError::MultipartError(detail) => SttFailure::MultipartError(detail@),
            SttError::MissingFile => SttFailure::MissingFile,
        }
    }
}

} // verus!
