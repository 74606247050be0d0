//! Audio generation requests and results.
use vstd::prelude::*;

use crate::text::IntoText;

verus! {

/// One audio generation request. How it is encoded on the wire is the
/// protocol layer's business.
#[derive(Debug, Clone, PartialEq, Eq)]
pub struct GenAudioRequest {
    pub model: String,
    pub prompt: String,
    /// Output format; the protocol layer picks one when absent.
    pub format: Option<String>,
    pub voice: Option<String>,
}

impl GenAudioRequest {
    pub fn new<M: IntoText, P: IntoText>(model: M, prompt: P) -> (request: Self)
        ensures
            request.model@ == model.text_view(),
            request.prompt@ == prompt.text_view(),
            request.format is None,
            request.voice is None,
    {
        GenAudioRequest { model: model.into_text(), prompt: prompt.into_text(), format: None, voice: None }
    }

    pub fn with_format<F: IntoText>(self, format: F) -> (request: Self)
        ensures
            request.model == self.model,
            request.prompt == self.prompt,
            request.format matches Some(f) && f@ == format.text_view(),
            request.voice == self.voice,
    {
        GenAudioRequest { format: Some(format.into_text()), ..self }
    }

    pub fn with_voice<V: IntoText>(self, voice: V) -> (request: Self)
        ensures
            request.model == self.model,
            request.prompt == self.prompt,
            request.format == self.format,
            request.voice matches Some(v) && v@ == voice.text_view(),
    {
        GenAudioRequest { voice: Some(voice.into_text()), ..self }
    }
}

/// The result of an audio generation.
#[derive(Debug, Clone, PartialEq, Eq)]
pub struct GenAudioResponse {
    /// Base64 audio data.
    pub audio_data: String,
    pub transcript: String,
    pub format: String,
}

} // verus!
