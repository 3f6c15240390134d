//! Speech-to-text request preparation and outcome classification for an
//! OpenAI-compatible transcription service, with verified WAV encoding.
pub mod error;
pub mod manager;
pub mod request;
pub mod response;
pub mod wav;
