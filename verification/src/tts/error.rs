//! Errors of the synthesis pipeline.

use vstd::prelude::*;
use crate::scalar::{Scalar, ScalarView};
use crate::transport::{TransportError, TransportFailure};

verus! {

/// Why a synthesis call gave no audio.
#[derive(Debug, Clone)]
pub enum TtsError {
    /// The transport failed, or the endpoint's address was refused.
    HttpClient(TransportError),
    /// A model given by name is not known. Kept for callers that take names
    /// from outside; the library's own selectors cannot be invalid.
    InvalidModel(String),
    /// A voice given by name is not known. Kept as `InvalidModel` is.
    InvalidVoice(String),
    /// The input has more characters than the endpoint takes; holds their
    /// number.
    InputTooLong(usize),
    /// The speed lies outside the closed interval from 0.25 to 4.0.
    InvalidSpeed(Scalar),
    /// The remote side answered with a status outside the success range.
    ApiError { status: u16, message: String },
    /// The client holds an empty API key.
    MissingApiKey,
    /// The request holds no input text.
    MissingInput,
    /// The request could not be written as JSON.
    SerializationError(String),
}

/// Model of a [`TtsError`].
pub enum TtsFailure {
    HttpClient(TransportFailure),
    InvalidModel(Seq<char>),
    InvalidVoice(Seq<char>),
    InputTooLong(nat),
    InvalidSpeed(ScalarView),
    ApiError { status: u16, message: Seq<char> },
    MissingApiKey,
    MissingInput,
    SerializationError(Seq<char>),
}

impl View for TtsError {
    type V = TtsFailure;

    open spec fn view(&self) -> TtsFailure {
        match self {
            TtsError::HttpClient(e) => TtsFailure::HttpClient(e@),
            TtsError::InvalidModel(name) => TtsFailure::InvalidModel(name@),
            TtsError::InvalidVoice(name) => TtsFailure::InvalidVoice(name@),
            TtsError::InputTooLong(length) => TtsFailure::InputTooLong(*length as nat),
            TtsError::InvalidSpeed(speed) => TtsFailure::InvalidSpeed(speed@),
            TtsError::ApiError { status, message } => TtsFailure::ApiError {
                status: *status,
                message: message@,
            },
            TtsError::MissingApiKey => TtsFailure::MissingApiKey,
            TtsError::MissingInput => TtsFailure::MissingInput,
            TtsError::SerializationError(detail) => TtsFailure::SerializationError(detail@),
        }
    }
}

} // verus!
