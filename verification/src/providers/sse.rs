//! SSE framing.
//!
//! Cuts a byte buffer into events at blank lines and extracts each event's
//! `data` payload. What a payload means (JSON, `[DONE]`, plain text) is for the
//! protocol layer to decide. Incomplete events stay in the buffer until the
//! bytes that complete them arrive.
use vstd::prelude::*;
use vstd::utf8::*;

use crate::text::{chars_of, is_whitespace_char, join_with, lemma_trim_start_step, string_of, trim_start};

verus! {

pub const CR: u8 = 13;

pub const LF: u8 = 10;

// ----------------------------------------------------------------------------
// Byte level: line endings and blank lines
// ----------------------------------------------------------------------------

/// `s` with every `\r\n` replaced by `\n`, scanning from the front.
pub open spec fn crlf_normalized(s: Seq<u8>) -> Seq<u8>
    decreases s.len(),
{
    if s.len() == 0 {
        Seq::empty()
    } else if s.len() >= 2 && s[0] == CR && s[1] == LF {
        seq![LF] + crlf_normalized(s.skip(2))
    } else {
        seq![s[0]] + crlf_normalized(s.skip(1))
    }
}

/// A blank line (`\n\n`) starts at position `i` of `s`.
pub open spec fn blank_at(s: Seq<u8>, i: int) -> bool {
    0 <= i && i + 1 < s.len() && s[i] == LF && s[i + 1] == LF
}

/// The first position at which a blank line starts, if any.
pub open spec fn first_blank(s: Seq<u8>) -> Option<int>
    decreases s.len(),
{
    if s.len() < 2 {
        None
    } else if s[0] == LF && s[1] == LF {
        Some(0)
    } else {
        match first_blank(s.drop_first()) {
            Some(i) => Some(i + 1),
            None => None,
        }
    }
}

/// The complete events of `s`: the pieces before each blank line, in order.
pub open spec fn sse_frames(s: Seq<u8>) -> Seq<Seq<u8>>
    decreases s.len(),
{
    match first_blank(s) {
        Some(i) => {
            proof {
                lemma_first_blank(s);
            }
            seq![s.take(i)] + sse_frames(s.skip(i + 2))
        },
        None => Seq::empty(),
    }
}

/// What is left of `s` after its complete events: the start of an event whose
/// blank line has not arrived yet.
pub open spec fn sse_rest(s: Seq<u8>) -> Seq<u8>
    decreases s.len(),
{
    match first_blank(s) {
        Some(i) => {
            proof {
                lemma_first_blank(s);
            }
            sse_rest(s.skip(i + 2))
        },
        None => s,
    }
}

/// No two carriage returns stand next to each other in `s`.
pub open spec fn no_double_cr(s: Seq<u8>) -> bool {
    forall|i: int| 0 <= i < s.len() - 1 ==> !(#[trigger] s[i] == CR && s[i + 1] == CR)
}

/// No carriage return is directly followed by a line feed in `s`.
pub open spec fn no_crlf(s: Seq<u8>) -> bool {
    forall|i: int| 0 <= i < s.len() - 1 ==> !(#[trigger] s[i] == CR && s[i + 1] == LF)
}

/// The bytes that `char::is_ascii_whitespace` (for bytes) accepts.
pub open spec fn is_ascii_whitespace_byte(b: u8) -> bool {
    b == 32 || b == 9 || b == LF || b == 12 || b == CR
}

// ----------------------------------------------------------------------------
// Character level: lines, `data:` fields and the payload
// ----------------------------------------------------------------------------

/// The first position of a line feed in `t`, if any.
pub open spec fn first_newline(t: Seq<char>) -> Option<int>
    decreases t.len(),
{
    if t.len() == 0 {
        None
    } else if t[0] == '\n' {
        Some(0)
    } else {
        match first_newline(t.drop_first()) {
            Some(i) => Some(i + 1),
            None => None,
        }
    }
}

/// A line without the carriage return that ended it.
pub open spec fn strip_cr(line: Seq<char>) -> Seq<char> {
    if line.len() > 0 && line.last() == '\r' {
        line.drop_last()
    } else {
        line
    }
}

/// The lines of `t` as `str::lines` gives them: split at `\n`, a `\r` before
/// the `\n` dropped, no empty line after a final `\n`.
pub open spec fn text_lines(t: Seq<char>) -> Seq<Seq<char>>
    decreases t.len(),
{
    if t.len() == 0 {
        Seq::empty()
    } else {
        match first_newline(t) {
            Some(i) => {
                proof {
                    lemma_first_newline(t);
                }
                seq![strip_cr(t.take(i))] + text_lines(t.skip(i + 1))
            },
            None => seq![t],
        }
    }
}

/// The value of a `data:` line (leading whitespace dropped), or `None` for any
/// other line.
pub open spec fn data_value(line: Seq<char>) -> Option<Seq<char>> {
    if line.len() >= 5 && line.take(5) == seq!['d', 'a', 't', 'a', ':'] {
        Some(trim_start(line.skip(5)))
    } else {
        None
    }
}

/// The values of the `data:` lines among `lines`, in order.
pub open spec fn data_values(lines: Seq<Seq<char>>) -> Seq<Seq<char>>
    decreases lines.len(),
{
    if lines.len() == 0 {
        Seq::empty()
    } else {
        match data_value(lines.last()) {
            Some(v) => data_values(lines.drop_last()).push(v),
            None => data_values(lines.drop_last()),
        }
    }
}

/// The payload of an event text: its `data:` values joined with `\n`.
pub open spec fn data_payload(text: Seq<char>) -> Seq<char> {
    join_with(data_values(text_lines(text)), seq!['\n'])
}

/// `String::from_utf8_lossy`: the text of `bytes`, with each invalid sequence
/// replaced by U+FFFD.
pub uninterp spec fn utf8_lossy(bytes: Seq<u8>) -> Seq<char>;

/// The text of a raw event: its UTF-8 decoding when it is valid UTF-8, else
/// the lenient decoding that replaces each invalid sequence.
pub open spec fn frame_text(frame: Seq<u8>) -> Seq<char> {
    if valid_utf8(frame) {
        decode_utf8(frame)
    } else {
        utf8_lossy(frame)
    }
}

/// The payload of a raw event, decoded leniently.
pub open spec fn frame_payload(frame: Seq<u8>) -> Seq<char> {
    data_payload(frame_text(frame))
}

/// The non-empty payloads of `frames`, in order.
pub open spec fn frame_events(frames: Seq<Seq<u8>>) -> Seq<Seq<char>>
    decreases frames.len(),
{
    if frames.len() == 0 {
        Seq::empty()
    } else if frame_payload(frames.last()).len() > 0 {
        frame_events(frames.drop_last()).push(frame_payload(frames.last()))
    } else {
        frame_events(frames.drop_last())
    }
}

/// The events that have something else than ASCII whitespace in them, in order.
pub open spec fn non_blank_frames(frames: Seq<Seq<u8>>) -> Seq<Seq<u8>>
    decreases frames.len(),
{
    if frames.len() == 0 {
        Seq::empty()
    } else if exists|i: int|
        0 <= i < frames.last().len() && !is_ascii_whitespace_byte(#[trigger] frames.last()[i]) {
        non_blank_frames(frames.drop_last()).push(frames.last())
    } else {
        non_blank_frames(frames.drop_last())
    }
}

/// The payloads that draining `buffer` yields.
pub open spec fn drained_events(buffer: Seq<u8>) -> Seq<Seq<char>> {
    frame_events(sse_frames(crlf_normalized(buffer)))
}

/// What draining `buffer` leaves in it.
pub open spec fn drained_rest(buffer: Seq<u8>) -> Seq<u8> {
    sse_rest(crlf_normalized(buffer))
}

// ----------------------------------------------------------------------------
// Executable framing
// ----------------------------------------------------------------------------

/// Replaces every `\r\n` with `\n` in place, so that blank lines can be found
/// byte by byte.
pub fn normalize_crlf(buffer: &mut Vec<u8>)
    ensures
        final(buffer)@ == crlf_normalized(old(buffer)@),
{
    let ghost orig = buffer@;
    let mut read: usize = 0;
    let mut write: usize = 0;
    assert(orig.skip(0) =~= orig);
    while read < buffer.len()
        invariant
            write <= read <= buffer.len() == orig.len(),
            buffer@.skip(read as int) == orig.skip(read as int),
            buffer@.take(write as int) + crlf_normalized(orig.skip(read as int))
                == crlf_normalized(orig),
        decreases buffer.len() - read,
    {
        let ghost before = buffer@;
        let ghost tail = orig.skip(read as int);
        if buffer[read] == CR && read + 1 < buffer.len() && buffer[read + 1] == LF {
            assert(tail[0] == CR && tail[1] == LF);
            assert(tail.skip(2) =~= orig.skip(read + 2));
            buffer.set(write, LF);
            assert(buffer@.take(write + 1) =~= before.take(write as int) + seq![LF]);
            read = read + 2;
        } else {
            let b = buffer[read];
            assert(tail.skip(1) =~= orig.skip(read + 1));
            assert(tail[0] == b);
            assert(!(tail.len() >= 2 && tail[0] == CR && tail[1] == LF));
            buffer.set(write, b);
            assert(buffer@.take(write + 1) =~= before.take(write as int) + seq![b]);
            read = read + 1;
        }
        assert(buffer@.skip(read as int) =~= orig.skip(read as int));
        write = write + 1;
        assert(buffer@.take(write as int) + crlf_normalized(orig.skip(read as int))
            =~= crlf_normalized(orig));
    }
    assert(orig.skip(read as int) =~= Seq::<u8>::empty());
    buffer.truncate(write);
    assert(buffer@ =~= crlf_normalized(orig));
}

/// The position of the first blank line of `buffer`.
fn find_blank_line(buffer: &Vec<u8>) -> (found: Option<usize>)
    ensures
        match found {
            Some(i) => first_blank(buffer@) == Some(i as int),
            None => first_blank(buffer@) is None,
        },
{
    let n = buffer.len();
    if n < 2 {
        proof {
            lemma_first_blank_none(buffer@);
        }
        return None;
    }
    let mut i: usize = 0;
    while i < n - 1
        invariant
            n == buffer.len() >= 2,
            i <= n - 1,
            forall|j: int| 0 <= j < i ==> !blank_at(buffer@, j),
        decreases buffer.len() - i,
    {
        if buffer[i] == LF && buffer[i + 1] == LF {
            proof {
                lemma_first_blank_is_first(buffer@, i as int);
            }
            return Some(i);
        }
        i = i + 1;
    }
    proof {
        lemma_first_blank_none(buffer@);
    }
    None
}

/// Cuts the first complete event off the front of `buffer`.
fn take_frame(buffer: &mut Vec<u8>, at: usize) -> (frame: Vec<u8>)
    requires
        first_blank(old(buffer)@) == Some(at as int),
    ensures
        sse_frames(old(buffer)@) == seq![frame@] + sse_frames(final(buffer)@),
        sse_rest(old(buffer)@) == sse_rest(final(buffer)@),
        final(buffer)@.len() < old(buffer)@.len(),
{
    proof {
        lemma_first_blank(old(buffer)@);
    }
    let n = buffer.len();
    assert(blank_at(buffer@, at as int));
    assert(at + 2 <= n);
    let ghost orig = buffer@;
    let mut rest = buffer.split_off(at + 2);
    buffer.truncate(at);
    std::mem::swap(buffer, &mut rest);
    assert(rest@ =~= orig.take(at as int));
    assert(buffer@ =~= orig.skip(at + 2));
    rest
}

/// The payload of an event text: its `data:` values joined with `\n`.
pub fn event_data_payload(text: &Vec<char>) -> (payload: Vec<char>)
    ensures
        payload@ == data_payload(text@),
{
    let n = text.len();
    let mut payload: Vec<char> = Vec::new();
    let mut start: usize = 0;
    let mut i: usize = 0;
    let mut any = false;
    let ghost mut values: Seq<Seq<char>> = Seq::empty();
    assert(text@.take(0) =~= Seq::<char>::empty());
    while i < n
        invariant
            n == text.len(),
            start <= i <= n,
            start == 0 || text@[start - 1] == '\n',
            forall|j: int| start <= j < i ==> text@[j] != '\n',
            values == data_values(text_lines(text@.take(start as int))),
            payload@ == join_with(values, seq!['\n']),
            any == (values.len() > 0),
        decreases n - i,
    {
        if text[i] == '\n' {
            let mut end = i;
            if end > start && text[end - 1] == '\r' {
                end = end - 1;
            }
            proof {
                lemma_lines_extend(text@, start as int, i as int);
                assert(text@.subrange(start as int, end as int) == strip_cr(
                    text@.subrange(start as int, i as int),
                ));
            }
            let ghost line = text@.subrange(start as int, end as int);
            any = push_data_value(&mut payload, Ghost(values), any, text, start, end);
            proof {
                lemma_data_values_push(text_lines(text@.take(start as int)), line);
                values = data_values(text_lines(text@.take(start as int)).push(line));
            }
            start = i + 1;
        }
        i = i + 1;
    }
    if start < n {
        proof {
            lemma_lines_last(text@, start as int);
        }
        let ghost line = text@.subrange(start as int, n as int);
        push_data_value(&mut payload, Ghost(values), any, text, start, n);
        proof {
            lemma_data_values_push(text_lines(text@.take(start as int)), line);
        }
    } else {
        assert(text@.take(start as int) =~= text@);
    }
    payload
}

/// Appends the value of the line `text[start..end]` to `payload` if it is a
/// `data:` line.
fn push_data_value(
    payload: &mut Vec<char>,
    Ghost(values): Ghost<Seq<Seq<char>>>,
    any: bool,
    text: &Vec<char>,
    start: usize,
    end: usize,
) -> (now_any: bool)
    requires
        start <= end <= text.len(),
        old(payload)@ == join_with(values, seq!['\n']),
        any == (values.len() > 0),
    ensures
        now_any == (any || data_value(text@.subrange(start as int, end as int)) is Some),
        final(payload)@ == join_with(
            match data_value(text@.subrange(start as int, end as int)) {
                Some(v) => values.push(v),
                None => values,
            },
            seq!['\n'],
        ),
{
    let ghost line = text@.subrange(start as int, end as int);
    if end - start >= 5 && text[start] == 'd' && text[start + 1] == 'a' && text[start + 2] == 't'
        && text[start + 3] == 'a' && text[start + 4] == ':' {
        assert(line.take(5) =~= seq!['d', 'a', 't', 'a', ':']);
        let mut k = start + 5;
        assert(line.skip(5) =~= text@.subrange(k as int, end as int));
        while k < end && is_whitespace_char(text[k])
            invariant
                start + 5 <= k <= end <= text.len(),
                trim_start(line.skip(5)) == trim_start(text@.subrange(k as int, end as int)),
            decreases end - k,
        {
            proof {
                lemma_trim_start_step(text@, k as int, end as int);
            }
            k = k + 1;
        }
        let ghost v = text@.subrange(k as int, end as int);
        assert(trim_start(line.skip(5)) == v);
        if any {
            payload.push('\n');
        }
        let ghost mid = payload@;
        let mut j = k;
        while j < end
            invariant
                k <= j <= end <= text.len(),
                payload@ == mid + text@.subrange(k as int, j as int),
            decreases end - j,
        {
            payload.push(text[j]);
            assert(payload@ =~= mid + text@.subrange(k as int, j + 1));
            j = j + 1;
        }
        proof {
            let vs = values.push(v);
            assert(vs.drop_last() =~= values);
            if values.len() == 0 {
                assert(payload@ =~= v);
            } else {
                assert(payload@ =~= join_with(values, seq!['\n']) + seq!['\n'] + v);
            }
        }
        true
    } else {
        assert(!(line.len() >= 5 && line.take(5) == seq!['d', 'a', 't', 'a', ':'])) by {
            if line.len() >= 5 && line.take(5) == seq!['d', 'a', 't', 'a', ':'] {
                assert(line.take(5)[0] == 'd' && line.take(5)[1] == 'a' && line.take(5)[2] == 't'
                    && line.take(5)[3] == 'a' && line.take(5)[4] == ':');
            }
        }
        any
    }
}

/// `String::from_utf8_lossy`: the text of `bytes`, each invalid sequence
/// replaced by U+FFFD; valid UTF-8 decodes as it is.
#[verifier::external_body]
fn lossy_string(bytes: &[u8]) -> (text: String)
    ensures
        text@ == utf8_lossy(bytes@),
        valid_utf8(bytes@) ==> text@ == decode_utf8(bytes@),
{
    String::from_utf8_lossy(bytes).into_owned()
}

/// The characters of the lenient text of `bytes`.
fn decode_lossy(bytes: &[u8]) -> (text: Vec<char>)
    ensures
        text@ == frame_text(bytes@),
{
    let s = lossy_string(bytes);
    chars_of(s.as_str())
}

/// Cuts every complete event out of `buffer` and returns their `data`
/// payloads; the start of an incomplete event stays in `buffer`.
///
/// Several `data:` lines of one event are joined with `\n`; events without a
/// payload are dropped.
pub fn drain_events(buffer: &mut Vec<u8>) -> (events: Vec<String>)
    ensures
        events.deep_view() == drained_events(old(buffer)@),
        final(buffer)@ == drained_rest(old(buffer)@),
{
    normalize_crlf(buffer);
    let ghost norm = buffer@;
    let ghost mut done: Seq<Seq<u8>> = Seq::empty();
    let mut events: Vec<String> = Vec::new();
    assert(done + sse_frames(buffer@) =~= sse_frames(norm));
    loop
        invariant
            norm == crlf_normalized(old(buffer)@),
            done + sse_frames(buffer@) == sse_frames(norm),
            sse_rest(buffer@) == sse_rest(norm),
            events.deep_view() == frame_events(done),
        decreases buffer@.len(),
    {
        match find_blank_line(buffer) {
            None => {
                proof {
                    assert(sse_frames(buffer@) == Seq::<Seq<u8>>::empty());
                    assert(sse_rest(buffer@) == buffer@);
                    assert(done =~= sse_frames(norm));
                }
                return events;
            },
            Some(at) => {
                let frame = take_frame(buffer, at);
                let text = decode_lossy(frame.as_slice());
                let payload = event_data_payload(&text);
                let ghost prev = done;
                proof {
                    done = done.push(frame@);
                    assert(done.drop_last() =~= prev);
                    assert(done + sse_frames(buffer@) =~= prev + (seq![frame@] + sse_frames(buffer@)));
                }
                if payload.len() > 0 {
                    let s = string_of(payload.as_slice());
                    events.push(s);
                    assert(events.deep_view() =~= frame_events(done));
                }
            },
        }
    }
}

/// Appends a received chunk to `buffer` and drains the events that are now
/// complete.
pub fn feed_events(buffer: &mut Vec<u8>, chunk: &[u8]) -> (events: Vec<String>)
    ensures
        events.deep_view() == drained_events(old(buffer)@ + chunk@),
        final(buffer)@ == drained_rest(old(buffer)@ + chunk@),
{
    buffer.extend_from_slice(chunk);
    assert(buffer@ =~= old(buffer)@ + chunk@);
    drain_events(buffer)
}

/// Drains `buffer` once the stream has ended: a final event that lacks its
/// closing blank line is completed by one and drained too.
pub fn drain_final_events(buffer: &mut Vec<u8>) -> (events: Vec<String>)
    ensures
        events.deep_view() == drained_events(old(buffer)@ + seq![LF, LF]),
        final(buffer)@ == drained_rest(old(buffer)@ + seq![LF, LF]),
{
    buffer.push(LF);
    buffer.push(LF);
    assert(buffer@ =~= old(buffer)@ + seq![LF, LF]);
    drain_events(buffer)
}

/// `std::str::from_utf8`: the text of `bytes` when they are valid UTF-8,
/// none otherwise.
#[verifier::external_body]
fn strict_string(bytes: &[u8]) -> (text: Option<String>)
    ensures
        match text {
            Some(t) => valid_utf8(bytes@) && t@ == decode_utf8(bytes@),
            None => !valid_utf8(bytes@),
        },
{
    match std::str::from_utf8(bytes) {
        Ok(s) => Some(s.to_owned()),
        Err(_) => None,
    }
}

/// The characters of `bytes` when they are valid UTF-8.
fn decode_strict(bytes: &[u8]) -> (text: Option<Vec<char>>)
    ensures
        match text {
            Some(t) => valid_utf8(bytes@) && t@ == decode_utf8(bytes@),
            None => !valid_utf8(bytes@),
        },
{
    match strict_string(bytes) {
        Some(s) => Some(chars_of(s.as_str())),
        None => None,
    }
}

/// The end-of-stream marker.
pub open spec fn done_payload() -> Seq<char> {
    seq!['[', 'D', 'O', 'N', 'E', ']']
}

/// The payload of a raw event that is worth decoding: none when the event is
/// not valid UTF-8, has no payload, or is the `[DONE]` marker.
pub open spec fn frame_json_payload(frame: Seq<u8>) -> Option<Seq<char>> {
    if !valid_utf8(frame) {
        None
    } else {
        let p = data_payload(decode_utf8(frame));
        if p.len() == 0 || p == done_payload() {
            None
        } else {
            Some(p)
        }
    }
}

/// The payload of a raw event, for the protocol layer to decode; none for
/// invalid UTF-8, an empty payload or `[DONE]`.
pub fn sse_frame_payload(frame: &[u8]) -> (payload: Option<String>)
    ensures
        match payload {
            Some(p) => frame_json_payload(frame@) == Some(p@),
            None => frame_json_payload(frame@) is None,
        },
{
    let text = match decode_strict(frame) {
        Some(t) => t,
        None => {
            return None;
        },
    };
    let p = event_data_payload(&text);
    if p.len() == 0 {
        return None;
    }
    if p.len() == 6 && p[0] == '[' && p[1] == 'D' && p[2] == 'O' && p[3] == 'N' && p[4] == 'E' && p[5]
        == ']' {
        assert(p@ =~= done_payload());
        return None;
    }
    proof {
        if p@ == done_payload() {
            assert(p@[0] == '[' && p@[1] == 'D' && p@[2] == 'O' && p@[3] == 'N' && p@[4] == 'E'
                && p@[5] == ']');
        }
    }
    Some(string_of(p.as_slice()))
}

/// Cuts every complete event out of `buffer` and returns those that hold
/// something else than ASCII whitespace, undecoded.
pub fn drain_sse_frames(buffer: &mut Vec<u8>) -> (frames: Vec<Vec<u8>>)
    ensures
        frames.deep_view() == non_blank_frames(sse_frames(crlf_normalized(old(buffer)@))),
        final(buffer)@ == drained_rest(old(buffer)@),
{
    normalize_crlf(buffer);
    let ghost norm = buffer@;
    let ghost mut done: Seq<Seq<u8>> = Seq::empty();
    let mut frames: Vec<Vec<u8>> = Vec::new();
    assert(done + sse_frames(buffer@) =~= sse_frames(norm));
    loop
        invariant
            norm == crlf_normalized(old(buffer)@),
            done + sse_frames(buffer@) == sse_frames(norm),
            sse_rest(buffer@) == sse_rest(norm),
            frames.deep_view() == non_blank_frames(done),
        decreases buffer@.len(),
    {
        match find_blank_line(buffer) {
            None => {
                proof {
                    assert(sse_frames(buffer@) == Seq::<Seq<u8>>::empty());
                    assert(sse_rest(buffer@) == buffer@);
                    assert(done =~= sse_frames(norm));
                }
                return frames;
            },
            Some(at) => {
                let frame = take_frame(buffer, at);
                let ghost prev = done;
                proof {
                    done = done.push(frame@);
                    assert(done.drop_last() =~= prev);
                    assert(done + sse_frames(buffer@) =~= prev + (seq![frame@] + sse_frames(buffer@)));
                }
                assert(frame.deep_view() =~= frame@);
                if has_non_whitespace(&frame) {
                    assert(done.last() == frame@);
                    frames.push(frame);
                    assert(frames.deep_view() =~= non_blank_frames(done));
                } else {
                    assert(frames.deep_view() =~= non_blank_frames(done));
                }
            },
        }
    }
}

fn has_non_whitespace(frame: &Vec<u8>) -> (b: bool)
    ensures
        b == exists|i: int| 0 <= i < frame@.len() && !is_ascii_whitespace_byte(#[trigger] frame@[i]),
{
    let mut i: usize = 0;
    while i < frame.len()
        invariant
            i <= frame.len(),
            forall|j: int| 0 <= j < i ==> is_ascii_whitespace_byte(#[trigger] frame@[j]),
        decreases frame.len() - i,
    {
        let b = frame[i];
        if !(b == 32 || b == 9 || b == LF || b == 12 || b == CR) {
            return true;
        }
        i = i + 1;
    }
    false
}

// ----------------------------------------------------------------------------
// Lemmas
// ----------------------------------------------------------------------------

/// `first_blank` finds a blank line, and the first one.
pub proof fn lemma_first_blank(s: Seq<u8>)
    ensures
        match first_blank(s) {
            Some(i) => blank_at(s, i) && forall|j: int| 0 <= j < i ==> !blank_at(s, j),
            None => forall|j: int| !blank_at(s, j),
        },
    decreases s.len(),
{
    if s.len() >= 2 && !(s[0] == LF && s[1] == LF) {
        lemma_first_blank(s.drop_first());
        match first_blank(s.drop_first()) {
            Some(i) => {
                assert forall|j: int| 0 <= j < i + 1 implies !blank_at(s, j) by {
                    if j > 0 {
                        assert(!blank_at(s.drop_first(), j - 1));
                    }
                }
            },
            None => {
                assert forall|j: int| !blank_at(s, j) by {
                    if j > 0 {
                        assert(!blank_at(s.drop_first(), j - 1));
                    }
                }
            },
        }
    }
}

proof fn lemma_first_blank_is_first(s: Seq<u8>, i: int)
    requires
        blank_at(s, i),
        forall|j: int| 0 <= j < i ==> !blank_at(s, j),
    ensures
        first_blank(s) == Some(i),
{
    lemma_first_blank(s);
    match first_blank(s) {
        Some(k) => {
            if k < i {
                assert(!blank_at(s, k));
            }
            if k > i {
                assert(!blank_at(s, i));
            }
        },
        None => {
            assert(!blank_at(s, i));
        },
    }
}

proof fn lemma_first_blank_none(s: Seq<u8>)
    requires
        forall|j: int| 0 <= j < s.len() - 1 ==> !blank_at(s, j),
    ensures
        first_blank(s) is None,
{
    lemma_first_blank(s);
    if let Some(k) = first_blank(s) {
        assert(!blank_at(s, k));
    }
}

/// `first_newline` finds a line feed, and the first one.
pub proof fn lemma_first_newline(t: Seq<char>)
    ensures
        match first_newline(t) {
            Some(i) => 0 <= i < t.len() && t[i] == '\n' && forall|j: int|
                0 <= j < i ==> t[j] != '\n',
            None => forall|j: int| 0 <= j < t.len() ==> t[j] != '\n',
        },
    decreases t.len(),
{
    if t.len() > 0 && t[0] != '\n' {
        lemma_first_newline(t.drop_first());
        match first_newline(t.drop_first()) {
            Some(i) => {
                assert forall|j: int| 0 <= j < i + 1 implies t[j] != '\n' by {
                    if j > 0 {
                        assert(t[j] == t.drop_first()[j - 1]);
                    }
                }
            },
            None => {
                assert forall|j: int| 0 <= j < t.len() implies t[j] != '\n' by {
                    if j > 0 {
                        assert(t[j] == t.drop_first()[j - 1]);
                    }
                }
            },
        }
    }
}

proof fn lemma_first_newline_is(t: Seq<char>, i: int)
    requires
        0 <= i < t.len(),
        t[i] == '\n',
        forall|j: int| 0 <= j < i ==> t[j] != '\n',
    ensures
        first_newline(t) == Some(i),
{
    lemma_first_newline(t);
    match first_newline(t) {
        Some(k) => {
            if k < i {
                assert(t[k] != '\n');
            }
            if k > i {
                assert(t[i] != '\n');
            }
        },
        None => {
            assert(t[i] != '\n');
        },
    }
}

/// Lines split over a prefix that ends a line.
proof fn lemma_lines_concat(p: Seq<char>, q: Seq<char>)
    requires
        p.len() == 0 || p.last() == '\n',
    ensures
        text_lines(p + q) == text_lines(p) + text_lines(q),
    decreases p.len(),
{
    if p.len() == 0 {
        assert(p + q =~= q);
        assert(text_lines(p) =~= Seq::<Seq<char>>::empty());
        assert(text_lines(p) + text_lines(q) =~= text_lines(q));
    } else {
        lemma_first_newline(p);
        lemma_first_newline(p + q);
        let i = first_newline(p).unwrap();
        lemma_first_newline_is(p + q, i);
        assert((p + q).take(i) =~= p.take(i));
        assert((p + q).skip(i + 1) =~= p.skip(i + 1) + q);
        let r = p.skip(i + 1);
        if r.len() > 0 {
            assert(r.last() == p.last());
        }
        lemma_lines_concat(r, q);
        assert(text_lines(p + q) =~= text_lines(p) + text_lines(q));
    }
}

/// The lines of a piece without line feeds, ended by one.
proof fn lemma_lines_single(seg: Seq<char>)
    requires
        forall|j: int| 0 <= j < seg.len() ==> seg[j] != '\n',
    ensures
        text_lines(seg.push('\n')) == seq![strip_cr(seg)],
{
    let t = seg.push('\n');
    lemma_first_newline_is(t, seg.len() as int);
    assert(t.take(seg.len() as int) =~= seg);
    assert(t.skip(seg.len() as int + 1) =~= Seq::<char>::empty());
    assert(text_lines(t.skip(seg.len() as int + 1)) == Seq::<Seq<char>>::empty());
    assert(text_lines(t) =~= seq![strip_cr(seg)]);
}

/// One more terminated line.
proof fn lemma_lines_extend(t: Seq<char>, start: int, i: int)
    requires
        0 <= start <= i < t.len(),
        start == 0 || t[start - 1] == '\n',
        forall|j: int| start <= j < i ==> t[j] != '\n',
        t[i] == '\n',
    ensures
        text_lines(t.take(i + 1)) == text_lines(t.take(start)).push(
            strip_cr(t.subrange(start, i)),
        ),
{
    let seg = t.subrange(start, i);
    assert(t.take(i + 1) =~= t.take(start) + seg.push('\n'));
    if start > 0 {
        assert(t.take(start).last() == t[start - 1]);
    }
    lemma_lines_concat(t.take(start), seg.push('\n'));
    lemma_lines_single(seg);
    assert(text_lines(t.take(start)) + seq![strip_cr(seg)] =~= text_lines(t.take(start)).push(
        strip_cr(seg),
    ));
}

/// The unterminated last line.
proof fn lemma_lines_last(t: Seq<char>, start: int)
    requires
        0 <= start < t.len(),
        start == 0 || t[start - 1] == '\n',
        forall|j: int| start <= j < t.len() ==> t[j] != '\n',
    ensures
        text_lines(t) == text_lines(t.take(start)).push(t.subrange(start, t.len() as int)),
{
    let seg = t.subrange(start, t.len() as int);
    assert(t =~= t.take(start) + seg);
    if start > 0 {
        assert(t.take(start).last() == t[start - 1]);
    }
    lemma_lines_concat(t.take(start), seg);
    lemma_first_newline(seg);
    if let Some(k) = first_newline(seg) {
        assert(seg[k] == t[start + k]);
    }
    assert(text_lines(seg) =~= seq![seg]);
    assert(text_lines(t.take(start)) + seq![seg] =~= text_lines(t.take(start)).push(seg));
}

proof fn lemma_data_values_push(lines: Seq<Seq<char>>, line: Seq<char>)
    ensures
        data_values(lines.push(line)) == match data_value(line) {
            Some(v) => data_values(lines).push(v),
            None => data_values(lines),
        },
{
    assert(lines.push(line).drop_last() =~= lines);
}

} // verus!
