//! Image generation requests and results.
use vstd::prelude::*;

use crate::text::IntoText;

verus! {

/// One image generation request.
#[derive(Debug, Clone, PartialEq, Eq)]
pub struct GenImgRequest {
    pub model: String,
    pub prompt: String,
    pub resolution: Option<String>,
    pub aspect_ratio: Option<String>,
}

impl GenImgRequest {
    pub fn new<M: IntoText, P: IntoText>(model: M, prompt: P) -> (request: Self)
        ensures
            request.model@ == model.text_view(),
            request.prompt@ == prompt.text_view(),
            request.resolution is None,
            request.aspect_ratio is None,
    {
        GenImgRequest {
            model: model.into_text(),
            prompt: prompt.into_text(),
            resolution: None,
            aspect_ratio: None,
        }
    }

    pub fn with_resolution<R: IntoText>(self, resolution: R) -> (request: Self)
        ensures
            request.model == self.model,
            request.prompt == self.prompt,
            request.resolution matches Some(r) && r@ == resolution.text_view(),
            request.aspect_ratio == self.aspect_ratio,
    {
        GenImgRequest { resolution: Some(resolution.into_text()), ..self }
    }

    pub fn with_aspect_ratio<A: IntoText>(self, aspect_ratio: A) -> (request: Self)
        ensures
            request.model == self.model,
            request.prompt == self.prompt,
            request.resolution == self.resolution,
            request.aspect_ratio matches Some(a) && a@ == aspect_ratio.text_view(),
    {
        GenImgRequest { aspect_ratio: Some(aspect_ratio.into_text()), ..self }
    }
}

/// The result of an image generation: every image as a URL, remote or a
/// `data:` URL with the inline bytes.
#[derive(Debug, Clone, PartialEq, Eq)]
pub struct GenImgResponse {
    pub image_urls: Vec<String>,
}

} // verus!
