//! Client-side core for two remote audio endpoints: speech-to-text
//! transcription and text-to-speech synthesis.
//!
//! Each pipeline is a validating request builder, an exact wire encoder
//! (multipart/form-data for uploads, JSON for synthesis) and a classifier
//! that turns a status code and a response body into a typed result. The
//! transport itself is the caller's: the library hands out a
//! [`transport::PreparedRequest`] and takes back a status and a body.

pub mod envelope;
pub mod json;
pub mod scalar;
pub mod stt;
pub mod text;
pub mod transport;
pub mod tts;
