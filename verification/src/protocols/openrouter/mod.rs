//! OpenRouter's image protocol: what an image request sends and what its
//! answer becomes.
use vstd::prelude::*;

use crate::capability::{GenImgRequest, GenImgResponse, ModelError};
use crate::text::{is_blank, is_blank_str};

pub mod wire;

use wire::{generated_image_to_url, image_url_of, WireGeneratedImage, WireImageRequest, WireImageResponse};

verus! {

/// The body for an image request, or `NoResponse` for a blank prompt (which
/// is refused before anything is sent).
pub fn image_wire_request(request: GenImgRequest) -> (result: Result<WireImageRequest, ModelError>)
    ensures
        match result {
            Ok(w) => !is_blank(request.prompt@) && w.model == request.model && w.prompt
                == request.prompt && w.resolution == request.resolution && w.aspect_ratio
                == request.aspect_ratio,
            Err(e) => is_blank(request.prompt@) && e is NoResponse,
        },
{
    if is_blank_str(request.prompt.as_str()) {
        return Err(ModelError::NoResponse);
    }
    Ok(
        WireImageRequest {
            model: request.model,
            prompt: request.prompt,
            resolution: request.resolution,
            aspect_ratio: request.aspect_ratio,
        },
    )
}

/// The URLs of the returned images that have one, in order.
pub open spec fn image_urls_of(images: Seq<WireGeneratedImage>) -> Seq<Seq<char>>
    decreases images.len(),
{
    if images.len() == 0 {
        Seq::empty()
    } else {
        match image_url_of(images.last()) {
            Some(u) => image_urls_of(images.drop_last()).push(u),
            None => image_urls_of(images.drop_last()),
        }
    }
}

/// Each returned image contributes its URL, when it has one, after those of
/// the images before it; images without one are skipped.
pub proof fn lemma_image_urls_in_order(images: Seq<WireGeneratedImage>, image: WireGeneratedImage)
    ensures
        image_urls_of(Seq::empty()) == Seq::<Seq<char>>::empty(),
        image_urls_of(images.push(image)) == image_urls_of(images) + match image_url_of(image) {
            Some(u) => seq![u],
            None => Seq::<Seq<char>>::empty(),
        },
{
    assert(images.push(image).drop_last() =~= images);
    assert(images.push(image).last() == image);
    match image_url_of(image) {
        Some(u) => assert(image_urls_of(images).push(u) =~= image_urls_of(images) + seq![u]),
        None => assert(image_urls_of(images) + Seq::<Seq<char>>::empty() =~= image_urls_of(images)),
    }
}

/// The result of an image request: the URLs of the returned images, or
/// `NoResponse` when none of them has one.
pub fn image_response(response: WireImageResponse) -> (result: Result<GenImgResponse, ModelError>)
    ensures
        match result {
            Ok(r) => r.image_urls.deep_view() == image_urls_of(response.data@) && r.image_urls@.len()
                > 0,
            Err(e) => image_urls_of(response.data@).len() == 0 && e is NoResponse,
        },
{
    let mut rest = response.data;
    let n = rest.len();
    let ghost images = rest@;
    let mut urls: Vec<String> = Vec::new();
    let mut k: usize = 0;
    assert(images.take(0) =~= Seq::<WireGeneratedImage>::empty());
    assert(images.skip(0) =~= images);
    while rest.len() > 0
        invariant
            k <= images.len() == n,
            rest@ == images.skip(k as int),
            urls.deep_view() == image_urls_of(images.take(k as int)),
        decreases rest.len(),
    {
        assert(k < images.len());
        let image = rest.remove(0);
        assert(image == images[k as int]);
        assert(images.take(k + 1).drop_last() =~= images.take(k as int));
        assert(rest@ =~= images.skip(k + 1));
        match generated_image_to_url(image) {
            Some(url) => {
                let ghost before = urls.deep_view();
                urls.push(url);
                assert(urls.deep_view() =~= before.push(url@));
            },
            None => {},
        }
        k = k + 1;
    }
    assert(images.take(k as int) =~= images);
    if urls.len() == 0 {
        return Err(ModelError::NoResponse);
    }
    Ok(GenImgResponse { image_urls: urls })
}

} // verus!
