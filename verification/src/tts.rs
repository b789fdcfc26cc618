//! Text-to-speech: synthesis requests as JSON, answers as raw audio.

pub mod client;
pub mod error;
pub mod laws;
pub mod types;

pub use client::{SpeechClient, SpeechRequestBuilder};
pub use error::TtsError;
pub use types::{AudioFormat, SpeechRequest, SpeechResponse, TtsModel, Voice};
