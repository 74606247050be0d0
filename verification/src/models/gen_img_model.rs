//! An image model: providers by model name, an active model, and the
//! aspect ratio and size of the images it asks for.
use vstd::prelude::*;

use super::{blank_line, image_prompt, prompt_parts, ChatError};
use crate::capability::GenImgRequest;
use crate::message::Message;
use crate::router::registry::Registry;
use crate::router::{registered_all, RouterError};
use crate::text::join_with;

verus! {

/// Image generation over a table of providers, one of them active.
pub struct GenImgModel<P> {
    model_providers: Registry<P>,
    active_model: Option<String>,
    aspect_ratio: String,
    image_size: String,
}

impl<P> Default for GenImgModel<P> {
    /// The same as `new`.
    fn default() -> (model: Self)
        ensures
            model.providers() == Map::<Seq<char>, P>::empty(),
            model.active() is None,
            model.aspect_ratio_view() == "1:1"@,
            model.image_size_view() == "1K"@,
    {
        Self::new()
    }
}

impl<P> GenImgModel<P> {

    /// The providers by model name.
    pub closed spec fn providers(&self) -> Map<Seq<char>, P> {
        self.model_providers@
    }

    /// The name of the active model.
    pub closed spec fn active(&self) -> Option<Seq<char>> {
        match self.active_model {
            Some(m) => Some(m@),
            None => None,
        }
    }

    pub closed spec fn aspect_ratio_view(&self) -> Seq<char> {
        self.aspect_ratio@
    }

    pub closed spec fn image_size_view(&self) -> Seq<char> {
        self.image_size@
    }

    /// No provider, no active model, square images of size `1K`.
    pub fn new() -> (model: Self)
        ensures
            model.providers() == Map::<Seq<char>, P>::empty(),
            model.active() is None,
            model.aspect_ratio_view() == "1:1"@,
            model.image_size_view() == "1K"@,
    {
        GenImgModel {
            model_providers: Registry::new(),
            active_model: None,
            aspect_ratio: "1:1".to_owned(),
            image_size: "1K".to_owned(),
        }
    }

    /// Registers `provider` for `model_name`; the first registration wins.
    pub fn add_model_provider(&mut self, model_name: &str, provider: P)
        ensures
            final(self).providers() == (if old(self).providers().contains_key(model_name@) {
                old(self).providers()
            } else {
                old(self).providers().insert(model_name@, provider)
            }),
            final(self).active() == old(self).active(),
            final(self).aspect_ratio_view() == old(self).aspect_ratio_view(),
            final(self).image_size_view() == old(self).image_size_view(),
    {
        self.model_providers.insert(model_name, provider);
    }

    /// Registers a clone of `provider` for each of `model_names`.
    pub fn add_models_for_provider(&mut self, model_names: &[&str], provider: P)
        where P: Clone
        ensures
            registered_all(old(self).providers(), final(self).providers(), model_names@, provider),
            final(self).active() == old(self).active(),
            final(self).aspect_ratio_view() == old(self).aspect_ratio_view(),
            final(self).image_size_view() == old(self).image_size_view(),
    {
        crate::router::register_all(&mut self.model_providers, model_names, provider);
    }

    /// Makes `model_name` the active model; refused for a model without a
    /// provider.
    pub fn set_active_model(&mut self, model_name: &str) -> (result: Result<(), ChatError>)
        ensures
            final(self).providers() == old(self).providers(),
            final(self).aspect_ratio_view() == old(self).aspect_ratio_view(),
            final(self).image_size_view() == old(self).image_size_view(),
            match result {
                Ok(()) => old(self).providers().contains_key(model_name@) && final(self).active()
                    == Some(model_name@),
                Err(e) => !old(self).providers().contains_key(model_name@) && final(self).active()
                    == old(self).active() && (e matches RouterError::ModelNotFound(m) && m@
                    == model_name@),
            },
    {
        if !self.model_providers.contains(model_name) {
            return Err(RouterError::ModelNotFound(model_name.to_owned()));
        }
        self.active_model = Some(model_name.to_owned());
        Ok(())
    }

    pub fn with_aspect_ratio(self, aspect_ratio: String) -> (model: Self)
        ensures
            model.providers() == self.providers(),
            model.active() == self.active(),
            model.aspect_ratio_view() == aspect_ratio@,
            model.image_size_view() == self.image_size_view(),
    {
        GenImgModel { aspect_ratio, ..self }
    }

    pub fn with_image_size(self, image_size: String) -> (model: Self)
        ensures
            model.providers() == self.providers(),
            model.active() == self.active(),
            model.aspect_ratio_view() == self.aspect_ratio_view(),
            model.image_size_view() == image_size@,
    {
        GenImgModel { image_size, ..self }
    }

    /// The provider of `model_name`, or `ModelNotFound`.
    pub fn get_provider(&self, model_name: &str) -> (provider: Result<&P, ChatError>)
        ensures
            match provider {
                Ok(p) => self.providers().contains_key(model_name@) && *p
                    == self.providers()[model_name@],
                Err(e) => !self.providers().contains_key(model_name@) && (e matches RouterError::ModelNotFound(m)
                    && m@ == model_name@),
            },
    {
        match self.model_providers.get(model_name) {
            Some(p) => Ok(p),
            None => Err(RouterError::ModelNotFound(model_name.to_owned())),
        }
    }

    /// The number of models with a provider.
    pub fn provider_count(&self) -> (n: usize)
        ensures
            n == self.providers().len(),
    {
        self.model_providers.len()
    }

    pub fn aspect_ratio(&self) -> (aspect_ratio: &str)
        ensures
            aspect_ratio@ == self.aspect_ratio_view(),
    {
        self.aspect_ratio.as_str()
    }

    pub fn image_size(&self) -> (image_size: &str)
        ensures
            image_size@ == self.image_size_view(),
    {
        self.image_size.as_str()
    }

    pub fn active_model(&self) -> (name: Option<&str>)
        ensures
            match name {
                Some(n) => self.active() == Some(n@),
                None => self.active() is None,
            },
    {
        match &self.active_model {
            Some(m) => Some(m.as_str()),
            None => None,
        }
    }

    /// What an image generation sends, and to which provider: the active
    /// model's provider, and a request with the messages' prompt and this
    /// model's size and aspect ratio. Fails with `ModelNotFound` without an
    /// active model or its provider, and with `NoResponse` for a blank prompt.
    pub fn image_request(&self, msgs: &Vec<Message>) -> (plan: Result<(&P, GenImgRequest), ChatError>)
        ensures
            match plan {
                Ok((p, request)) => self.active() matches Some(m) && self.providers().contains_key(m)
                    && *p == self.providers()[m] && request.model@ == m
                    && prompt_parts(msgs.deep_view()).len() > 0 && request.prompt@ == join_with(
                    prompt_parts(msgs.deep_view()),
                    blank_line(),
                ) && (request.resolution matches Some(r) && r@ == self.image_size_view())
                    && (request.aspect_ratio matches Some(a) && a@ == self.aspect_ratio_view()),
                Err(RouterError::ModelNotFound(_)) => self.active() is None || !self.providers().contains_key(
                    self.active().unwrap(),
                ),
                Err(RouterError::NoResponse) => self.active() matches Some(m)
                    && self.providers().contains_key(m) && prompt_parts(msgs.deep_view()).len() == 0,
                Err(_) => false,
            },
    {
        let model_name = match &self.active_model {
            Some(m) => m,
            None => {
                return Err(RouterError::ModelNotFound("No active model set".to_owned()));
            },
        };
        let provider = self.get_provider(model_name.as_str())?;
        let prompt = match image_prompt(msgs) {
            Some(p) => p,
            None => {
                return Err(RouterError::NoResponse);
            },
        };
        let request = GenImgRequest::new(model_name.as_str(), prompt)
            .with_resolution(self.image_size.as_str())
            .with_aspect_ratio(self.aspect_ratio.as_str());
        Ok((provider, request))
    }
}

} // verus!
