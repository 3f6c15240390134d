//! The local (on-device) transcription backend in its stand-in form: it
//! loads nothing and transcribes every recording to an empty string.
use vstd::prelude::*;

verus! {

/// A change in the local model's state, as reported to the user interface.
#[derive(Debug, Clone, PartialEq, Eq)]
pub struct ModelStateEvent {
    pub event_type: String,
    pub model_id: Option<String>,
    pub model_name: Option<String>,
    pub error: Option<String>,
}

/// The local transcription backend without a model runtime behind it.
#[derive(Debug, Clone, Copy, PartialEq, Eq)]
pub struct TranscriptionManager {}

impl TranscriptionManager {
    /// A backend with no model loaded.
    pub fn new() -> (r: Result<TranscriptionManager, String>)
        ensures
            r is Ok,
    {
        Ok(TranscriptionManager {  })
    }

    /// Whether a model is loaded: never, for this backend.
    pub fn is_model_loaded(&self) -> (r: bool)
        ensures
            !r,
    {
        false
    }

    /// Unloads the current model; there is none, so this always succeeds.
    pub fn unload_model(&self) -> (r: Result<(), String>)
        ensures
            r is Ok,
    {
        Ok(())
    }

    /// Unloads the model right away if the settings ask for it; nothing to do.
    pub fn maybe_unload_immediately(&self, context: &str) {
    }

    /// Loads the model `model_id`; accepted and ignored.
    pub fn load_model(&self, model_id: &str) -> (r: Result<(), String>)
        ensures
            r is Ok,
    {
        Ok(())
    }

    /// Starts loading the configured model in the background; nothing to do.
    pub fn initiate_model_load(&self) {
    }

    /// The identifier of the loaded model: none.
    pub fn get_current_model(&self) -> (r: Option<String>)
        ensures
            r is None,
    {
        None
    }

    /// Transcribes scaled samples: always an empty transcript.
    pub fn transcribe(&self, audio: Vec<i32>) -> (r: Result<String, String>)
        ensures
            r matches Ok(t) && t@.len() == 0,
    {
        Ok(String::new())
    }
}

} // verus!
