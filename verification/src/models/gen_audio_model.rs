//! An audio model: providers by model name, an active model, and the format
//! and voice of the audio it asks for.
use vstd::prelude::*;

use super::ChatError;
use crate::message::{opt_text, Message, MessageView};
use crate::protocols::openai::wire::{WireAudioConfig, WireChatRequest};
use crate::router::registry::Registry;
use crate::router::{registered_all, RouterError};

verus! {

/// Audio generation over a table of providers, one of them active.
pub struct GenAudioModel<P> {
    model_providers: Registry<P>,
    active_model: Option<String>,
    audio_format: String,
    voice: Option<String>,
}

impl<P> Default for GenAudioModel<P> {
    /// The same as `new`.
    fn default() -> (model: Self)
        ensures
            model.providers() == Map::<Seq<char>, P>::empty(),
            model.active() is None,
            model.audio_format_view() == "wav"@,
            model.voice_view() is None,
    {
        Self::new()
    }
}

impl<P> GenAudioModel<P> {

    /// The providers by model name.
    pub closed spec fn providers(&self) -> Map<Seq<char>, P> {
        self.model_providers@
    }

    /// The name of the active model.
    pub closed spec fn active(&self) -> Option<Seq<char>> {
        opt_text(self.active_model)
    }

    pub closed spec fn audio_format_view(&self) -> Seq<char> {
        self.audio_format@
    }

    pub closed spec fn voice_view(&self) -> Option<Seq<char>> {
        opt_text(self.voice)
    }

    /// No provider, no active model, `wav` audio in the default voice.
    pub fn new() -> (model: Self)
        ensures
            model.providers() == Map::<Seq<char>, P>::empty(),
            model.active() is None,
            model.audio_format_view() == "wav"@,
            model.voice_view() is None,
    {
        GenAudioModel {
            model_providers: Registry::new(),
            active_model: None,
            audio_format: "wav".to_owned(),
            voice: None,
        }
    }

    /// Registers `provider` for `model_name`; the first registration wins.
    pub fn add_model_provider(&mut self, model_name: &str, provider: P)
        ensures
            final(self).providers() == (if old(self).providers().contains_key(model_name@) {
                old(self).providers()
            } else {
                old(self).providers().insert(model_name@, provider)
            }),
            final(self).active() == old(self).active(),
            final(self).audio_format_view() == old(self).audio_format_view(),
            final(self).voice_view() == old(self).voice_view(),
    {
        self.model_providers.insert(model_name, provider);
    }

    /// Registers a clone of `provider` for each of `model_names`.
    pub fn add_models_for_provider(&mut self, model_names: &[&str], provider: P)
        where P: Clone
        ensures
            registered_all(old(self).providers(), final(self).providers(), model_names@, provider),
            final(self).active() == old(self).active(),
            final(self).audio_format_view() == old(self).audio_format_view(),
            final(self).voice_view() == old(self).voice_view(),
    {
        crate::router::register_all(&mut self.model_providers, model_names, provider);
    }

    /// Makes `model_name` the active model; refused for a model without a
    /// provider.
    pub fn set_active_model(&mut self, model_name: &str) -> (result: Result<(), ChatError>)
        ensures
            final(self).providers() == old(self).providers(),
            final(self).audio_format_view() == old(self).audio_format_view(),
            final(self).voice_view() == old(self).voice_view(),
            match result {
                Ok(()) => old(self).providers().contains_key(model_name@) && final(self).active()
                    == Some(model_name@),
                Err(e) => !old(self).providers().contains_key(model_name@) && final(self).active()
                    == old(self).active() && (e matches RouterError::ModelNotFound(m) && m@
                    == model_name@),
            },
    {
        if !self.model_providers.contains(model_name) {
            return Err(RouterError::ModelNotFound(model_name.to_owned()));
        }
        self.active_model = Some(model_name.to_owned());
        Ok(())
    }

    pub fn with_audio_format(self, audio_format: String) -> (model: Self)
        ensures
            model.providers() == self.providers(),
            model.active() == self.active(),
            model.audio_format_view() == audio_format@,
            model.voice_view() == self.voice_view(),
    {
        GenAudioModel { audio_format, ..self }
    }

    pub fn with_voice(self, voice: String) -> (model: Self)
        ensures
            model.providers() == self.providers(),
            model.active() == self.active(),
            model.audio_format_view() == self.audio_format_view(),
            model.voice_view() == Some(voice@),
    {
        GenAudioModel { voice: Some(voice), ..self }
    }

    /// The provider of `model_name`, or `ModelNotFound`.
    pub fn get_provider(&self, model_name: &str) -> (provider: Result<&P, ChatError>)
        ensures
            match provider {
                Ok(p) => self.providers().contains_key(model_name@) && *p
                    == self.providers()[model_name@],
                Err(e) => !self.providers().contains_key(model_name@) && (e matches RouterError::ModelNotFound(m)
                    && m@ == model_name@),
            },
    {
        match self.model_providers.get(model_name) {
            Some(p) => Ok(p),
            None => Err(RouterError::ModelNotFound(model_name.to_owned())),
        }
    }

    /// The number of models with a provider.
    pub fn provider_count(&self) -> (n: usize)
        ensures
            n == self.providers().len(),
    {
        self.model_providers.len()
    }

    pub fn audio_format(&self) -> (format: &str)
        ensures
            format@ == self.audio_format_view(),
    {
        self.audio_format.as_str()
    }

    pub fn voice(&self) -> (voice: Option<&str>)
        ensures
            match voice {
                Some(v) => self.voice_view() == Some(v@),
                None => self.voice_view() is None,
            },
    {
        match &self.voice {
            Some(v) => Some(v.as_str()),
            None => None,
        }
    }

    pub fn active_model(&self) -> (name: Option<&str>)
        ensures
            match name {
                Some(n) => self.active() == Some(n@),
                None => self.active() is None,
            },
    {
        match &self.active_model {
            Some(m) => Some(m.as_str()),
            None => None,
        }
    }

    /// The `audio` field of a request: this model's format and voice.
    pub fn audio_config(&self) -> (config: WireAudioConfig)
        ensures
            config.format@ == self.audio_format_view(),
            opt_text(config.voice) == self.voice_view(),
    {
        let voice = match &self.voice {
            Some(v) => Some(v.clone()),
            None => None,
        };
        WireAudioConfig { format: self.audio_format.clone(), voice }
    }

    /// What an audio generation sends, and to which provider: the active
    /// model's provider, and a streamed request with the messages that asks
    /// for text and audio in this model's format and voice. Fails with
    /// `ModelNotFound` without an active model or its provider.
    pub fn audio_request(&self, msgs: Vec<Message>) -> (plan: Result<(&P, WireChatRequest), ChatError>)
        ensures
            match plan {
                Ok((p, wire)) => self.active() matches Some(m) && self.providers().contains_key(m)
                    && *p == self.providers()[m] && wire.model@ == m && wire.messages == msgs
                    && wire.stream == Some(true) && (wire.modalities matches Some(ms)
                    && ms.deep_view() == seq!["text"@, "audio"@]) && (wire.audio matches Some(a)
                    && a.format@ == self.audio_format_view() && opt_text(a.voice)
                    == self.voice_view()) && wire.temperature is None && wire.max_tokens is None
                    && wire.tools is None && wire.response_format is None
                    && wire.reasoning_effort is None && wire.thinking is None
                    && wire.stream_options is None,
                Err(e) => (self.active() is None || !self.providers().contains_key(
                    self.active().unwrap(),
                )) && e is ModelNotFound,
            },
    {
        let model_name = match &self.active_model {
            Some(m) => m,
            None => {
                return Err(RouterError::ModelNotFound("No active model set".to_owned()));
            },
        };
        let provider = self.get_provider(model_name.as_str())?;
        let mut wire = WireChatRequest::base(model_name.clone(), msgs).streaming();
        let mut modalities: Vec<String> = Vec::new();
        modalities.push("text".to_owned());
        modalities.push("audio".to_owned());
        assert(modalities.deep_view() =~= seq!["text"@, "audio"@]);
        wire.modalities = Some(modalities);
        wire.audio = Some(self.audio_config());
        Ok((provider, wire))
    }
}

} // verus!
