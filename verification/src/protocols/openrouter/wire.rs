//! Wire structures of OpenRouter's unified image API, and how a returned
//! image becomes a URL.
use vstd::prelude::*;

use crate::text::{is_blank, is_blank_str};

verus! {

/// The body of `POST /images`.
#[derive(Debug, Clone)]
pub struct WireImageRequest {
    pub model: String,
    pub prompt: String,
    pub resolution: Option<String>,
    pub aspect_ratio: Option<String>,
}

#[derive(Debug, Clone, PartialEq, Eq)]
pub struct WireImageResponse {
    pub data: Vec<WireGeneratedImage>,
}

#[derive(Debug, Clone, PartialEq, Eq)]
pub struct WireGeneratedImage {
    pub b64_json: Option<String>,
    pub url: Option<String>,
    pub media_type: Option<String>,
}

/// `t` starts with `image/`.
pub open spec fn is_image_media_type(t: Seq<char>) -> bool {
    t.len() >= 6 && t.take(6) == seq!['i', 'm', 'a', 'g', 'e', '/']
}

/// The media type announced in a `data:` URL: the given one when it is an
/// image type, `image/png` otherwise.
pub open spec fn data_url_media_type(media_type: Option<String>) -> Seq<char> {
    match media_type {
        Some(m) => if is_image_media_type(m@) {
            m@
        } else {
            "image/png"@
        },
        None => "image/png"@,
    }
}

/// The URL of a returned image: its `url` unless blank, else a `data:` URL of
/// its base64 bytes unless blank, else none.
pub open spec fn image_url_of(image: WireGeneratedImage) -> Option<Seq<char>> {
    match image.url {
        Some(u) if !is_blank(u@) => Some(u@),
        _ => match image.b64_json {
            Some(e) if !is_blank(e@) => Some(
                "data:"@ + data_url_media_type(image.media_type) + ";base64,"@ + e@,
            ),
            _ => None,
        },
    }
}

fn starts_with_image(t: &str) -> (b: bool)
    ensures
        b == is_image_media_type(t@),
{
    let chars = crate::text::chars_of(t);
    if chars.len() < 6 {
        return false;
    }
    let b = chars[0] == 'i' && chars[1] == 'm' && chars[2] == 'a' && chars[3] == 'g' && chars[4]
        == 'e' && chars[5] == '/';
    proof {
        let p = t@.take(6);
        if b {
            assert(p =~= seq!['i', 'm', 'a', 'g', 'e', '/']);
        } else {
            assert(p[0] != 'i' || p[1] != 'm' || p[2] != 'a' || p[3] != 'g' || p[4] != 'e' || p[5]
                != '/');
            assert(p != seq!['i', 'm', 'a', 'g', 'e', '/']);
        }
    }
    b
}

/// Turns a returned image into a URL: a remote address, or a `data:` URL with
/// the inline bytes.
pub fn generated_image_to_url(image: WireGeneratedImage) -> (url: Option<String>)
    ensures
        match url {
            Some(u) => image_url_of(image) == Some(u@),
            None => image_url_of(image) is None,
        },
{
    match image.url {
        Some(u) => {
            if !is_blank_str(u.as_str()) {
                return Some(u);
            }
        },
        None => {},
    }
    let encoded = match image.b64_json {
        Some(e) => {
            if is_blank_str(e.as_str()) {
                return None;
            }
            e
        },
        None => {
            return None;
        },
    };
    let media_type = match image.media_type {
        Some(m) => {
            if starts_with_image(m.as_str()) {
                m
            } else {
                "image/png".to_owned()
            }
        },
        None => "image/png".to_owned(),
    };
    let mut url = "data:".to_owned();
    url.append(media_type.as_str());
    url.append(";base64,");
    url.append(encoded.as_str());
    Some(url)
}

/// Which URL a returned image gets. A non-blank `url` is used as it is.
/// Otherwise non-blank base64 bytes become a `data:` URL, announcing the
/// given media type when it starts with `image/` and `image/png` otherwise
/// (also when no media type is given). Otherwise the image has no URL.
pub proof fn lemma_image_url_choice(image: WireGeneratedImage)
    ensures
        match image.url {
            Some(u) if !is_blank(u@) => image_url_of(image) == Some(u@),
            _ => match image.b64_json {
                Some(e) if !is_blank(e@) => image_url_of(image) == Some(
                    "data:"@ + (match image.media_type {
                        Some(m) if m@.len() >= 6 && m@.take(6) == "image/"@ => m@,
                        _ => "image/png"@,
                    }) + ";base64,"@ + e@,
                ),
                _ => image_url_of(image) is None,
            },
        },
{
    reveal_strlit("image/");
    assert("image/"@ =~= seq!['i', 'm', 'a', 'g', 'e', '/']);
    match image.media_type {
        Some(m) => {
            if m@.len() >= 6 && m@.take(6) == "image/"@ {
                assert(is_image_media_type(m@));
            } else {
                assert(!is_image_media_type(m@));
            }
        },
        None => {},
    }
}

} // verus!
