//! Dispatch layer: model names mapped to registered capability handles.
//!
//! No protocol mapping happens here: a router looks up, hands over, and turns
//! "not registered" into `ModelNotFound`. The capability of a handle is the
//! method it was registered with: `add_image_model` asserts that the model
//! generates images. One model name may map to different handles for
//! different capabilities.
use vstd::prelude::*;

use crate::capability::{ChatRequest, GenAudioRequest, GenImgRequest, ModelError};
use crate::text::IntoText;

pub mod error;
pub mod laws;
pub mod registry;

pub use error::RouterError;
pub use laws::{names_of, registers, Capability, Registration};
pub use registry::Registry;

verus! {

/// `after` is `before` with every name of `names` registered to a clone of
/// `handle`, unless already registered.
pub open spec fn registered_all<T: Clone>(
    before: Map<Seq<char>, T>,
    after: Map<Seq<char>, T>,
    names: Seq<&str>,
    handle: T,
) -> bool {
    &&& forall|n: Seq<char>| #[trigger] after.contains_key(n) <==> (before.contains_key(n)
        || exists|i: int| 0 <= i < names.len() && names[i]@ == n)
    &&& forall|n: Seq<char>| #[trigger] before.contains_key(n) ==> after[n] == before[n]
    &&& forall|n: Seq<char>|
        #![trigger after[n]]
        after.contains_key(n) && !before.contains_key(n) ==> cloned(handle, after[n])
}

/// Registers a clone of `handle` under each of `names`, in order.
pub fn register_all<T: Clone>(registry: &mut Registry<T>, names: &[&str], handle: T)
    ensures
        registered_all(old(registry)@, final(registry)@, names@, handle),
{
    let ghost before = registry@;
    let mut i: usize = 0;
    while i < names.len()
        invariant
            i <= names.len(),
            registered_all(before, registry@, names@.take(i as int), handle),
        decreases names.len() - i,
    {
        let ghost prev = registry@;
        let copy = handle.clone();
        assert(cloned(handle, copy));
        registry.insert(names[i], copy);
        proof {
            let taken = names@.take(i + 1);
            let key = names@[i as int]@;
            assert(taken[i as int] == names@[i as int]);
            assert forall|j: int| 0 <= j < i implies taken[j] == #[trigger] names@.take(i as int)[j] by {}
            assert forall|n: Seq<char>| #[trigger] registry@.contains_key(n) <==> (before.contains_key(n)
                || exists|j: int| 0 <= j < taken.len() && taken[j]@ == n) by {
                if registry@.contains_key(n) {
                    if n == key {
                        assert(taken[i as int]@ == n);
                    } else {
                        assert(prev.contains_key(n));
                        if !before.contains_key(n) {
                            let j = choose|j: int| 0 <= j < names@.take(i as int).len() && names@.take(i as int)[j]@ == n;
                            assert(taken[j]@ == n);
                        }
                    }
                }
                if exists|j: int| 0 <= j < taken.len() && taken[j]@ == n {
                    let j = choose|j: int| 0 <= j < taken.len() && taken[j]@ == n;
                    if j < i {
                        assert(names@.take(i as int)[j]@ == n);
                        assert(prev.contains_key(n));
                    }
                }
                if before.contains_key(n) {
                    assert(prev.contains_key(n));
                }
            }
        }
        i = i + 1;
    }
    assert(names@.take(i as int) =~= names@);
}

/// The error for a model that has no handle for `capability`.
pub fn not_found(model: &str, capability: &'static str) -> (error: ModelError)
    ensures
        error matches ModelError::ModelNotFound { model: m, capability: c } && m@ == model@ && c
            == capability,
{
    ModelError::ModelNotFound { model: model.to_owned(), capability }
}

/// A router by (capability, model name). `C`, `I` and `A` are the handles of
/// the chat, image and audio capabilities.
pub struct ModelRouter<C, I, A> {
    chat: Registry<C>,
    image: Registry<I>,
    audio: Registry<A>,
}

impl<C: Clone, I: Clone, A: Clone> Clone for ModelRouter<C, I, A> {
    /// The same model names for each capability, each with a clone of its
    /// handle.
    fn clone(&self) -> (copy: Self)
        ensures
            copy.chat_models().dom() == self.chat_models().dom(),
            copy.image_models().dom() == self.image_models().dom(),
            copy.audio_models().dom() == self.audio_models().dom(),
            forall|n: Seq<char>| #[trigger] copy.chat_models().contains_key(n) ==> cloned(
                self.chat_models()[n],
                copy.chat_models()[n],
            ),
            forall|n: Seq<char>| #[trigger] copy.image_models().contains_key(n) ==> cloned(
                self.image_models()[n],
                copy.image_models()[n],
            ),
            forall|n: Seq<char>| #[trigger] copy.audio_models().contains_key(n) ==> cloned(
                self.audio_models()[n],
                copy.audio_models()[n],
            ),
    {
        ModelRouter { chat: self.chat.clone(), image: self.image.clone(), audio: self.audio.clone() }
    }
}

impl<C, I, A> Default for ModelRouter<C, I, A> {
    /// The same as `new`: nothing registered.
    fn default() -> (router: Self)
        ensures
            router.chat_models() == Map::<Seq<char>, C>::empty(),
            router.image_models() == Map::<Seq<char>, I>::empty(),
            router.audio_models() == Map::<Seq<char>, A>::empty(),
    {
        Self::new()
    }
}

impl<C, I, A> ModelRouter<C, I, A> {

    /// The chat handles by model name.
    pub closed spec fn chat_models(&self) -> Map<Seq<char>, C> {
        self.chat@
    }

    /// The image handles by model name.
    pub closed spec fn image_models(&self) -> Map<Seq<char>, I> {
        self.image@
    }

    /// The audio handles by model name.
    pub closed spec fn audio_models(&self) -> Map<Seq<char>, A> {
        self.audio@
    }

    /// A router with nothing registered.
    pub fn new() -> (router: Self)
        ensures
            router.chat_models() == Map::<Seq<char>, C>::empty(),
            router.image_models() == Map::<Seq<char>, I>::empty(),
            router.audio_models() == Map::<Seq<char>, A>::empty(),
    {
        ModelRouter { chat: Registry::new(), image: Registry::new(), audio: Registry::new() }
    }

    /// Registers `handle` for chat under `model`. A model already registered
    /// for chat keeps its first handle.
    pub fn add_chat_model(&mut self, model: &str, handle: C)
        ensures
            registers(
                *old(self),
                *final(self),
                (Registration { capability: Capability::Chat, names: set![model@] }),
            ),
            final(self).chat_models() == (if old(self).chat_models().contains_key(model@) {
                old(self).chat_models()
            } else {
                old(self).chat_models().insert(model@, handle)
            }),
            final(self).image_models() == old(self).image_models(),
            final(self).audio_models() == old(self).audio_models(),
    {
        self.chat.insert(model, handle);
        assert(self.chat_models().dom() =~= old(self).chat_models().dom().union(set![model@]));
    }

    /// Registers a clone of `handle` for chat under each of `models`.
    pub fn add_chat_models(&mut self, models: &[&str], handle: C)
        where C: Clone
        ensures
            registers(
                *old(self),
                *final(self),
                (Registration { capability: Capability::Chat, names: names_of(models@) }),
            ),
            registered_all(old(self).chat_models(), final(self).chat_models(), models@, handle),
            final(self).image_models() == old(self).image_models(),
            final(self).audio_models() == old(self).audio_models(),
    {
        register_all(&mut self.chat, models, handle);
        assert(self.chat_models().dom() =~= old(self).chat_models().dom().union(names_of(models@)));
    }

    /// Whether a chat handle is registered under `model`.
    pub fn supports_chat(&self, model: &str) -> (supported: bool)
        ensures
            supported == self.chat_models().contains_key(model@),
    {
        self.chat.contains(model)
    }

    /// The number of models registered for chat.
    pub fn chat_model_count(&self) -> (n: usize)
        ensures
            n == self.chat_models().len(),
    {
        self.chat.len()
    }

    /// Where a chat request goes: the handle registered for its model,
    /// with the request handed on unchanged; or `ModelNotFound` naming the
    /// model and the capability, when none is registered.
    pub fn dispatch_chat(&self, request: ChatRequest) -> (plan: Result<(&C, ChatRequest), ModelError>)
        ensures
            match plan {
                Ok((h, r)) => self.chat_models().contains_key(request.model@) && *h
                    == self.chat_models()[request.model@] && r == request,
                Err(e) => !self.chat_models().contains_key(request.model@) && (e matches ModelError::ModelNotFound { model: m, capability: c }
                    && m@ == request.model@ && c@ == "chat"@),
            },
    {
        match self.chat.get(request.model.as_str()) {
            Some(h) => Ok((h, request)),
            None => Err(not_found(request.model.as_str(), "chat")),
        }
    }

    /// The chat handle for `model`, or `ModelNotFound` naming the model and
    /// the capability.
    pub fn route_chat(&self, model: &str) -> (routed: Result<&C, ModelError>)
        ensures
            match routed {
                Ok(h) => self.chat_models().contains_key(model@) && *h == self.chat_models()[model@],
                Err(e) => !self.chat_models().contains_key(model@) && (e matches ModelError::ModelNotFound { model: m, capability: c }
                    && m@ == model@ && c@ == "chat"@),
            },
    {
        match self.chat.get(model) {
            Some(h) => Ok(h),
            None => Err(not_found(model, "chat")),
        }
    }

    /// Registers `handle` for image under `model`. A model already registered
    /// for image keeps its first handle.
    pub fn add_image_model(&mut self, model: &str, handle: I)
        ensures
            registers(
                *old(self),
                *final(self),
                (Registration { capability: Capability::Image, names: set![model@] }),
            ),
            final(self).image_models() == (if old(self).image_models().contains_key(model@) {
                old(self).image_models()
            } else {
                old(self).image_models().insert(model@, handle)
            }),
            final(self).chat_models() == old(self).chat_models(),
            final(self).audio_models() == old(self).audio_models(),
    {
        self.image.insert(model, handle);
        assert(self.image_models().dom() =~= old(self).image_models().dom().union(set![model@]));
    }

    /// Registers a clone of `handle` for image under each of `models`.
    pub fn add_image_models(&mut self, models: &[&str], handle: I)
        where I: Clone
        ensures
            registers(
                *old(self),
                *final(self),
                (Registration { capability: Capability::Image, names: names_of(models@) }),
            ),
            registered_all(old(self).image_models(), final(self).image_models(), models@, handle),
            final(self).chat_models() == old(self).chat_models(),
            final(self).audio_models() == old(self).audio_models(),
    {
        register_all(&mut self.image, models, handle);
        assert(self.image_models().dom() =~= old(self).image_models().dom().union(names_of(models@)));
    }

    /// Whether a image handle is registered under `model`.
    pub fn supports_image(&self, model: &str) -> (supported: bool)
        ensures
            supported == self.image_models().contains_key(model@),
    {
        self.image.contains(model)
    }

    /// The number of models registered for image.
    pub fn image_model_count(&self) -> (n: usize)
        ensures
            n == self.image_models().len(),
    {
        self.image.len()
    }

    /// Where a image request goes: the handle registered for its model,
    /// with the request handed on unchanged; or `ModelNotFound` naming the
    /// model and the capability, when none is registered.
    pub fn dispatch_image(&self, request: GenImgRequest) -> (plan: Result<(&I, GenImgRequest), ModelError>)
        ensures
            match plan {
                Ok((h, r)) => self.image_models().contains_key(request.model@) && *h
                    == self.image_models()[request.model@] && r == request,
                Err(e) => !self.image_models().contains_key(request.model@) && (e matches ModelError::ModelNotFound { model: m, capability: c }
                    && m@ == request.model@ && c@ == "image"@),
            },
    {
        match self.image.get(request.model.as_str()) {
            Some(h) => Ok((h, request)),
            None => Err(not_found(request.model.as_str(), "image")),
        }
    }

    /// The image handle for `model`, or `ModelNotFound` naming the model and
    /// the capability.
    pub fn route_image(&self, model: &str) -> (routed: Result<&I, ModelError>)
        ensures
            match routed {
                Ok(h) => self.image_models().contains_key(model@) && *h == self.image_models()[model@],
                Err(e) => !self.image_models().contains_key(model@) && (e matches ModelError::ModelNotFound { model: m, capability: c }
                    && m@ == model@ && c@ == "image"@),
            },
    {
        match self.image.get(model) {
            Some(h) => Ok(h),
            None => Err(not_found(model, "image")),
        }
    }

    /// Registers `handle` for audio under `model`. A model already registered
    /// for audio keeps its first handle.
    pub fn add_audio_model(&mut self, model: &str, handle: A)
        ensures
            registers(
                *old(self),
                *final(self),
                (Registration { capability: Capability::Audio, names: set![model@] }),
            ),
            final(self).audio_models() == (if old(self).audio_models().contains_key(model@) {
                old(self).audio_models()
            } else {
                old(self).audio_models().insert(model@, handle)
            }),
            final(self).chat_models() == old(self).chat_models(),
            final(self).image_models() == old(self).image_models(),
    {
        self.audio.insert(model, handle);
        assert(self.audio_models().dom() =~= old(self).audio_models().dom().union(set![model@]));
    }

    /// Registers a clone of `handle` for audio under each of `models`.
    pub fn add_audio_models(&mut self, models: &[&str], handle: A)
        where A: Clone
        ensures
            registers(
                *old(self),
                *final(self),
                (Registration { capability: Capability::Audio, names: names_of(models@) }),
            ),
            registered_all(old(self).audio_models(), final(self).audio_models(), models@, handle),
            final(self).chat_models() == old(self).chat_models(),
            final(self).image_models() == old(self).image_models(),
    {
        register_all(&mut self.audio, models, handle);
        assert(self.audio_models().dom() =~= old(self).audio_models().dom().union(names_of(models@)));
    }

    /// Whether a audio handle is registered under `model`.
    pub fn supports_audio(&self, model: &str) -> (supported: bool)
        ensures
            supported == self.audio_models().contains_key(model@),
    {
        self.audio.contains(model)
    }

    /// The number of models registered for audio.
    pub fn audio_model_count(&self) -> (n: usize)
        ensures
            n == self.audio_models().len(),
    {
        self.audio.len()
    }

    /// Where a audio request goes: the handle registered for its model,
    /// with the request handed on unchanged; or `ModelNotFound` naming the
    /// model and the capability, when none is registered.
    pub fn dispatch_audio(&self, request: GenAudioRequest) -> (plan: Result<(&A, GenAudioRequest), ModelError>)
        ensures
            match plan {
                Ok((h, r)) => self.audio_models().contains_key(request.model@) && *h
                    == self.audio_models()[request.model@] && r == request,
                Err(e) => !self.audio_models().contains_key(request.model@) && (e matches ModelError::ModelNotFound { model: m, capability: c }
                    && m@ == request.model@ && c@ == "audio"@),
            },
    {
        match self.audio.get(request.model.as_str()) {
            Some(h) => Ok((h, request)),
            None => Err(not_found(request.model.as_str(), "audio")),
        }
    }

    /// The audio handle for `model`, or `ModelNotFound` naming the model and
    /// the capability.
    pub fn route_audio(&self, model: &str) -> (routed: Result<&A, ModelError>)
        ensures
            match routed {
                Ok(h) => self.audio_models().contains_key(model@) && *h == self.audio_models()[model@],
                Err(e) => !self.audio_models().contains_key(model@) && (e matches ModelError::ModelNotFound { model: m, capability: c }
                    && m@ == model@ && c@ == "audio"@),
            },
    {
        match self.audio.get(model) {
            Some(h) => Ok(h),
            None => Err(not_found(model, "audio")),
        }
    }
}

} // verus!
