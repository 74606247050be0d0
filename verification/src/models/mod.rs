//! Single-capability models with an active model: image and audio generation
//! over a table of providers.
use vstd::prelude::*;

use crate::message::{Message, MessageView};
use crate::router::RouterError;
use crate::text::{chars_of, join_with, string_of, trim, trim_bounds};

pub mod gen_audio_model;
pub mod gen_img_model;

pub use gen_audio_model::GenAudioModel;
pub use gen_img_model::GenImgModel;

verus! {

/// The errors of these models are those of routed calls.
pub type ChatError = RouterError;

/// The trimmed, non-blank contents of `messages`, in order.
pub open spec fn prompt_parts(messages: Seq<MessageView>) -> Seq<Seq<char>>
    decreases messages.len(),
{
    if messages.len() == 0 {
        Seq::empty()
    } else if trim(messages.last().content()).len() > 0 {
        prompt_parts(messages.drop_last()).push(trim(messages.last().content()))
    } else {
        prompt_parts(messages.drop_last())
    }
}

/// The separator between the parts of an image prompt: a blank line.
pub open spec fn blank_line() -> Seq<char> {
    seq!['\n', '\n']
}

/// The image prompt of `messages`: their trimmed, non-blank contents joined
/// by a blank line; none when every content is blank.
pub fn image_prompt(messages: &Vec<Message>) -> (prompt: Option<String>)
    ensures
        match prompt {
            Some(p) => prompt_parts(messages.deep_view()).len() > 0 && p@ == join_with(
                prompt_parts(messages.deep_view()),
                blank_line(),
            ),
            None => prompt_parts(messages.deep_view()).len() == 0,
        },
{
    let mut joined: Vec<char> = Vec::new();
    let mut any = false;
    let mut i: usize = 0;
    assert(messages.deep_view().take(0) =~= Seq::<MessageView>::empty());
    while i < messages.len()
        invariant
            i <= messages.len(),
            any == (prompt_parts(messages.deep_view().take(i as int)).len() > 0),
            joined@ == join_with(prompt_parts(messages.deep_view().take(i as int)), blank_line()),
        decreases messages.len() - i,
    {
        let ghost parts = prompt_parts(messages.deep_view().take(i as int));
        let ghost m = messages.deep_view()[i as int];
        assert(messages.deep_view().take(i + 1).drop_last() =~= messages.deep_view().take(i as int));
        assert(messages.deep_view().take(i + 1).last() == m);
        let content = chars_of(messages[i].content());
        let (a, b) = trim_bounds(&content);
        if a < b {
            let ghost piece = content@.subrange(a as int, b as int);
            assert(piece == trim(m.content()));
            let ghost before = joined@;
            if any {
                joined.push('\n');
                joined.push('\n');
            }
            let mut j = a;
            let ghost mid = joined@;
            while j < b
                invariant
                    a <= j <= b <= content.len(),
                    joined@ == mid + content@.subrange(a as int, j as int),
                decreases b - j,
            {
                joined.push(content[j]);
                assert(joined@ =~= mid + content@.subrange(a as int, j + 1));
                j = j + 1;
            }
            proof {
                let next = parts.push(piece);
                assert(next.drop_last() =~= parts);
                if parts.len() == 0 {
                    assert(joined@ =~= piece);
                } else {
                    assert(mid =~= before + blank_line());
                    assert(joined@ =~= join_with(parts, blank_line()) + blank_line() + piece);
                }
            }
            any = true;
        }
        i = i + 1;
    }
    assert(messages.deep_view().take(i as int) =~= messages.deep_view());
    if !any {
        return None;
    }
    Some(string_of(joined.as_slice()))
}

} // verus!
