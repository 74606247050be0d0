//! Vendor endpoint presets: base URLs and default headers.
use vstd::prelude::*;

use crate::message::opt_text;

verus! {

/// The configured base URL, or the vendor's default.
pub open spec fn base_url_or(configured: Option<String>, default: Seq<char>) -> Seq<char> {
    match configured {
        Some(u) => u@,
        None => default,
    }
}

/// The DeepSeek base URL: the configured one, else `https://api.deepseek.com`.
pub fn deepseek_base_url(configured: Option<String>) -> (url: String)
    ensures
        url@ == base_url_or(configured, "https://api.deepseek.com"@),
{
    match configured {
        Some(u) => u,
        None => "https://api.deepseek.com".to_owned(),
    }
}

/// The OpenRouter base URL: the configured one, else
/// `https://openrouter.ai/api/v1`.
pub fn openrouter_base_url(configured: Option<String>) -> (url: String)
    ensures
        url@ == base_url_or(configured, "https://openrouter.ai/api/v1"@),
{
    match configured {
        Some(u) => u,
        None => "https://openrouter.ai/api/v1".to_owned(),
    }
}

/// The views of name/value pairs.
pub open spec fn pair_views(pairs: Seq<(String, String)>) -> Seq<(Seq<char>, Seq<char>)> {
    pairs.map_values(|p: (String, String)| (p.0@, p.1@))
}

/// The extra OpenRouter headers: `HTTP-Referer` and `X-Title`, each when given.
pub open spec fn openrouter_header_views(
    http_referer: Option<Seq<char>>,
    x_title: Option<Seq<char>>,
) -> Seq<(Seq<char>, Seq<char>)> {
    let first: Seq<(Seq<char>, Seq<char>)> = match http_referer {
        Some(r) => seq![("HTTP-Referer"@, r)],
        None => Seq::empty(),
    };
    match x_title {
        Some(t) => first.push(("X-Title"@, t)),
        None => first,
    }
}

/// The attribution headers OpenRouter reads, for the values that are given.
pub fn openrouter_extra_headers(http_referer: Option<String>, x_title: Option<String>) -> (headers:
    Vec<(String, String)>)
    ensures
        pair_views(headers@) == openrouter_header_views(opt_text(http_referer), opt_text(x_title)),
{
    let ghost r = opt_text(http_referer);
    let ghost t = opt_text(x_title);
    let mut headers: Vec<(String, String)> = Vec::new();
    match http_referer {
        Some(value) => headers.push(("HTTP-Referer".to_owned(), value)),
        None => {},
    }
    let ghost first = pair_views(headers@);
    assert(first =~= match r {
        Some(v) => seq![("HTTP-Referer"@, v)],
        None => Seq::<(Seq<char>, Seq<char>)>::empty(),
    });
    match x_title {
        Some(value) => {
            headers.push(("X-Title".to_owned(), value));
            assert(pair_views(headers@) =~= first.push(("X-Title"@, t.unwrap())));
        },
        None => {},
    }
    headers
}

} // verus!
