//! Laws of SSE framing: how the framing of bytes that arrive in two pieces
//! relates to the framing of the same bytes arriving at once.
use vstd::prelude::*;

use super::sse::{
    blank_at, crlf_normalized, drained_events, drained_rest, first_blank, frame_events,
    lemma_first_blank, no_crlf, no_double_cr, non_blank_frames, sse_frames, sse_rest, CR, LF,
};

verus! {

/// Draining in two steps yields what draining once yields: the events of
/// `a`, then those of what `a` left behind followed by `b`, are the events of
/// `a + b`, and the same bytes are left over.
///
/// This holds whenever what the first drain leaves holds no `\r\n` (which
/// is so, for one, when `a` holds no two adjacent carriage returns). When it
/// does, a line ending that the first pass made out of `\r\r\n` is rewritten
/// a second time (`a = "data: x\r\r\n"`, `b = "\n"`).
pub proof fn lemma_drain_events_in_two_steps(a: Seq<u8>, b: Seq<u8>)
    requires
        no_crlf(drained_rest(a)),
    ensures
        drained_events(a) + drained_events(drained_rest(a) + b) == drained_events(a + b),
        drained_rest(drained_rest(a) + b) == drained_rest(a + b),
{
    lemma_frames_in_two_steps(a, b);
    lemma_frame_events_concat(
        sse_frames(crlf_normalized(a)),
        sse_frames(crlf_normalized(drained_rest(a) + b)),
    );
}

/// The same law for the undecoded, non-blank events.
pub proof fn lemma_drain_sse_frames_in_two_steps(a: Seq<u8>, b: Seq<u8>)
    requires
        no_crlf(drained_rest(a)),
    ensures
        non_blank_frames(sse_frames(crlf_normalized(a))) + non_blank_frames(
            sse_frames(crlf_normalized(drained_rest(a) + b)),
        ) == non_blank_frames(sse_frames(crlf_normalized(a + b))),
        drained_rest(drained_rest(a) + b) == drained_rest(a + b),
{
    lemma_frames_in_two_steps(a, b);
    lemma_non_blank_frames_concat(
        sse_frames(crlf_normalized(a)),
        sse_frames(crlf_normalized(drained_rest(a) + b)),
    );
}

/// After a drain the buffer holds no complete event: no blank line is left
/// in it.
pub proof fn lemma_drained_rest_holds_no_event(buffer: Seq<u8>)
    ensures
        first_blank(drained_rest(buffer)) is None,
{
    lemma_rest_suffix(crlf_normalized(buffer));
}

/// Draining what a drain left over yields nothing and leaves it as it is,
/// when that leftover holds no `\r\n`.
pub proof fn lemma_drain_rest_is_stable(buffer: Seq<u8>)
    requires
        no_crlf(drained_rest(buffer)),
    ensures
        drained_events(drained_rest(buffer)) == Seq::<Seq<char>>::empty(),
        drained_rest(drained_rest(buffer)) == drained_rest(buffer),
{
    let r = drained_rest(buffer);
    lemma_rest_suffix(crlf_normalized(buffer));
    lemma_normalize_identity(r);
    assert(sse_frames(r) == Seq::<Seq<u8>>::empty());
    assert(sse_rest(r) == r);
}

/// Without two adjacent carriage returns in the input, what a drain leaves
/// holds no `\r\n`: the laws above then apply.
pub proof fn lemma_rest_has_no_crlf(a: Seq<u8>)
    requires
        no_double_cr(a),
    ensures
        no_crlf(drained_rest(a)),
{
    let n = crlf_normalized(a);
    lemma_normalize_shape(a);
    let k = lemma_rest_suffix(n);
    lemma_suffix_no_crlf(n, k);
}

/// A normalized text ends with `\r` only when its input does.
proof fn lemma_normalize_last(a: Seq<u8>)
    ensures
        crlf_normalized(a).len() == 0 <==> a.len() == 0,
        crlf_normalized(a).len() > 0 && crlf_normalized(a).last() == CR ==> a.last() == CR,
    decreases a.len(),
{
    if a.len() > 0 {
        if a.len() >= 2 && a[0] == CR && a[1] == LF {
            let r = a.skip(2);
            lemma_normalize_last(r);
            if r.len() > 0 {
                assert(r.last() == a.last());
            }
        } else {
            let r = a.skip(1);
            lemma_normalize_last(r);
            if r.len() > 0 {
                assert(r.last() == a.last());
            }
        }
    }
}

/// Normalizing line endings twice changes nothing more, unless the first
/// pass leaves a `\r\n` (made out of `\r\r\n`); that never happens when the
/// input holds no two adjacent carriage returns (`lemma_normalize_shape`).
pub proof fn lemma_normalize_idempotent(s: Seq<u8>)
    requires
        no_crlf(crlf_normalized(s)),
    ensures
        crlf_normalized(crlf_normalized(s)) == crlf_normalized(s),
{
    lemma_normalize_identity(crlf_normalized(s));
}

/// The frame-level statement behind both laws.
pub proof fn lemma_frames_in_two_steps(a: Seq<u8>, b: Seq<u8>)
    requires
        no_crlf(sse_rest(crlf_normalized(a))),
    ensures
        sse_frames(crlf_normalized(a)) + sse_frames(crlf_normalized(sse_rest(crlf_normalized(a)) + b))
            == sse_frames(crlf_normalized(a + b)),
        sse_rest(crlf_normalized(sse_rest(crlf_normalized(a)) + b)) == sse_rest(
            crlf_normalized(a + b),
        ),
{
    if a.len() > 0 && b.len() > 0 && a.last() == CR && b[0] == LF {
        lemma_two_steps_across_crlf(a, b);
    } else {
        lemma_two_steps_plain(a, b);
    }
}

/// The cut does not split a `\r\n`.
proof fn lemma_two_steps_plain(a: Seq<u8>, b: Seq<u8>)
    requires
        no_crlf(sse_rest(crlf_normalized(a))),
        !(a.len() > 0 && b.len() > 0 && a.last() == CR && b[0] == LF),
    ensures
        sse_frames(crlf_normalized(a)) + sse_frames(crlf_normalized(sse_rest(crlf_normalized(a)) + b))
            == sse_frames(crlf_normalized(a + b)),
        sse_rest(crlf_normalized(sse_rest(crlf_normalized(a)) + b)) == sse_rest(
            crlf_normalized(a + b),
        ),
{
    let na = crlf_normalized(a);
    let l = sse_rest(na);
    lemma_normalize_last(a);
    let k = lemma_rest_suffix(na);
    lemma_normalize_concat(a, b);
    if l.len() > 0 {
        assert(l.last() == na.last());
    }
    lemma_normalize_concat(l, b);
    lemma_normalize_identity(l);
    assert(crlf_normalized(l + b) == l + crlf_normalized(b));
    lemma_frames_concat(na, crlf_normalized(b));
}

/// `a` ends with `\r` and `b` starts with `\n`.
proof fn lemma_two_steps_across_crlf(a: Seq<u8>, b: Seq<u8>)
    requires
        no_crlf(sse_rest(crlf_normalized(a))),
        a.len() > 0 && b.len() > 0 && a.last() == CR && b[0] == LF,
    ensures
        sse_frames(crlf_normalized(a)) + sse_frames(crlf_normalized(sse_rest(crlf_normalized(a)) + b))
            == sse_frames(crlf_normalized(a + b)),
        sse_rest(crlf_normalized(sse_rest(crlf_normalized(a)) + b)) == sse_rest(
            crlf_normalized(a + b),
        ),
{
    let a1 = a.drop_last();
    let b1 = b.drop_first();
    assert(a =~= a1 + seq![CR]);
    let n1 = crlf_normalized(a1);
    lemma_normalize_concat(a1, seq![CR]);
    lemma_normalize_single(CR);
    let na = crlf_normalized(a);
    assert(na == n1 + seq![CR]);
    let l1 = sse_rest(n1);
    lemma_rest_suffix(n1);
    lemma_frames_concat(n1, seq![CR]);
    lemma_no_blank_push_cr(l1);
    let l = sse_rest(na);
    assert(l == l1 + seq![CR]);
    assert forall|i: int| 0 <= i < l1.len() - 1 implies !(#[trigger] l1[i] == CR && l1[i + 1]
        == LF) by {
        assert(l1[i] == l[i] && l1[i + 1] == l[i + 1]);
    }
    assert(sse_frames(na) =~= sse_frames(n1));
    let cb = seq![CR] + b;
    assert(cb =~= seq![CR, LF] + b1);
    assert(cb.skip(2) =~= b1);
    assert(crlf_normalized(cb) == seq![LF] + crlf_normalized(b1));
    assert(a + b =~= a1 + cb);
    lemma_normalize_concat(a1, cb);
    assert(l + b =~= l1 + cb);
    lemma_normalize_concat(l1, cb);
    lemma_normalize_identity(l1);
    let tail = seq![LF] + crlf_normalized(b1);
    assert(crlf_normalized(a + b) == n1 + tail);
    assert(crlf_normalized(l + b) == l1 + tail);
    lemma_frames_concat(n1, tail);
}

/// Normalizing a concatenation piecewise, unless a `\r\n` straddles the cut.
pub proof fn lemma_normalize_concat(p: Seq<u8>, q: Seq<u8>)
    requires
        !(p.len() > 0 && q.len() > 0 && p.last() == CR && q[0] == LF),
    ensures
        crlf_normalized(p + q) == crlf_normalized(p) + crlf_normalized(q),
    decreases p.len(),
{
    let s = p + q;
    if p.len() == 0 {
        assert(s =~= q);
        assert(crlf_normalized(p) == Seq::<u8>::empty());
        assert(crlf_normalized(p) + crlf_normalized(q) =~= crlf_normalized(q));
    } else if s.len() >= 2 && s[0] == CR && s[1] == LF {
        if p.len() == 1 {
            assert(p.last() == s[0]);
            assert(q[0] == s[1]);
        }
        assert(p[0] == CR && p[1] == LF);
        let p2 = p.skip(2);
        if p2.len() > 0 {
            assert(p2.last() == p.last());
        }
        assert(s.skip(2) =~= p2 + q);
        lemma_normalize_concat(p2, q);
        assert(crlf_normalized(s) =~= crlf_normalized(p) + crlf_normalized(q));
    } else {
        assert(!(p.len() >= 2 && p[0] == CR && p[1] == LF));
        let p1 = p.skip(1);
        if p1.len() > 0 {
            assert(p1.last() == p.last());
        }
        assert(s.skip(1) =~= p1 + q);
        assert(s[0] == p[0]);
        lemma_normalize_concat(p1, q);
        assert(crlf_normalized(s) =~= crlf_normalized(p) + crlf_normalized(q));
    }
}

proof fn lemma_normalize_single(c: u8)
    ensures
        crlf_normalized(seq![c]) == seq![c],
{
    assert(seq![c].skip(1) =~= Seq::<u8>::empty());
    assert(crlf_normalized(seq![c].skip(1)) == Seq::<u8>::empty());
    assert(crlf_normalized(seq![c]) =~= seq![c]);
}

/// The shape of a normalized text whose input has no adjacent carriage
/// returns: no `\r\n` is left, and it ends in `\r` exactly when the input does.
pub proof fn lemma_normalize_shape(a: Seq<u8>)
    requires
        no_double_cr(a),
    ensures
        no_crlf(crlf_normalized(a)),
        (crlf_normalized(a).len() > 0 && crlf_normalized(a).last() == CR) == (a.len() > 0
            && a.last() == CR),
        crlf_normalized(a).len() == 0 <==> a.len() == 0,
        a.len() > 0 ==> crlf_normalized(a)[0] == (if a.len() >= 2 && a[0] == CR && a[1] == LF {
            LF
        } else {
            a[0]
        }),
    decreases a.len(),
{
    if a.len() == 0 {
    } else {
        let n = crlf_normalized(a);
        if a.len() >= 2 && a[0] == CR && a[1] == LF {
            let r = a.skip(2);
            assert forall|i: int| 0 <= i < r.len() - 1 implies !(#[trigger] r[i] == CR && r[i + 1]
                == CR) by {
                assert(r[i] == a[i + 2] && r[i + 1] == a[i + 3]);
            }
            lemma_normalize_shape(r);
            let nr = crlf_normalized(r);
            assert(n == seq![LF] + nr);
            assert forall|i: int| 0 <= i < n.len() - 1 implies !(#[trigger] n[i] == CR && n[i + 1]
                == LF) by {
                if i > 0 {
                    assert(n[i] == nr[i - 1] && n[i + 1] == nr[i]);
                }
            }
            if r.len() > 0 {
                assert(r.last() == a.last());
                assert(n.last() == nr.last());
            } else {
                assert(a.last() == LF);
            }
        } else {
            let r = a.skip(1);
            assert forall|i: int| 0 <= i < r.len() - 1 implies !(#[trigger] r[i] == CR && r[i + 1]
                == CR) by {
                assert(r[i] == a[i + 1] && r[i + 1] == a[i + 2]);
            }
            lemma_normalize_shape(r);
            let nr = crlf_normalized(r);
            assert(n == seq![a[0]] + nr);
            if r.len() > 0 {
                assert(r[0] == a[1]);
                if a[0] == CR {
                    assert(!(a[0] == CR && a[1] == CR));
                    assert(r[0] != CR && r[0] != LF);
                    assert(nr[0] == r[0]);
                }
                assert(r.last() == a.last());
                assert(n.last() == nr.last());
            }
            assert forall|i: int| 0 <= i < n.len() - 1 implies !(#[trigger] n[i] == CR && n[i + 1]
                == LF) by {
                if i > 0 {
                    assert(n[i] == nr[i - 1] && n[i + 1] == nr[i]);
                }
            }
        }
    }
}

/// Normalizing leaves a text without `\r\n` as it is.
pub proof fn lemma_normalize_identity(x: Seq<u8>)
    requires
        no_crlf(x),
    ensures
        crlf_normalized(x) == x,
    decreases x.len(),
{
    if x.len() > 0 {
        let r = x.skip(1);
        assert forall|i: int| 0 <= i < r.len() - 1 implies !(#[trigger] r[i] == CR && r[i + 1]
            == LF) by {
            assert(r[i] == x[i + 1] && r[i + 1] == x[i + 2]);
        }
        lemma_normalize_identity(r);
        if x.len() >= 2 {
            assert(!(x[0] == CR && x[1] == LF));
        }
        assert(crlf_normalized(x) =~= seq![x[0]] + r);
        assert(seq![x[0]] + r =~= x);
    }
}

/// A suffix of a text without `\r\n` has none either.
proof fn lemma_suffix_no_crlf(s: Seq<u8>, k: int)
    requires
        no_crlf(s),
        0 <= k <= s.len(),
    ensures
        no_crlf(s.skip(k)),
{
    let r = s.skip(k);
    assert forall|i: int| 0 <= i < r.len() - 1 implies !(#[trigger] r[i] == CR && r[i + 1] == LF) by {
        assert(r[i] == s[i + k] && r[i + 1] == s[i + k + 1]);
    }
}

/// What framing leaves over is a suffix of the input without a blank line;
/// it is empty only when the input is empty or ends with a line feed.
pub proof fn lemma_rest_suffix(s: Seq<u8>) -> (k: int)
    ensures
        0 <= k <= s.len(),
        sse_rest(s) == s.skip(k),
        first_blank(sse_rest(s)) is None,
        s.len() > 0 && sse_rest(s).len() == 0 ==> s.last() == LF,
    decreases s.len(),
{
    lemma_first_blank(s);
    match first_blank(s) {
        Some(i) => {
            let r = s.skip(i + 2);
            let k1 = lemma_rest_suffix(r);
            assert(r.skip(k1) =~= s.skip(i + 2 + k1));
            if r.len() > 0 {
                assert(r.last() == s.last());
            } else {
                assert(s.last() == s[i + 1]);
            }
            i + 2 + k1
        },
        None => {
            assert(s.skip(0) =~= s);
            0
        },
    }
}

/// Appending a carriage return to a text without a blank line makes none.
proof fn lemma_no_blank_push_cr(l: Seq<u8>)
    requires
        first_blank(l) is None,
    ensures
        first_blank(l + seq![CR]) is None,
        sse_frames(l + seq![CR]) == Seq::<Seq<u8>>::empty(),
        sse_rest(l + seq![CR]) == l + seq![CR],
{
    lemma_first_blank(l);
    let t = l + seq![CR];
    lemma_first_blank(t);
    if let Some(j) = first_blank(t) {
        assert(blank_at(t, j));
        if j + 1 < l.len() {
            assert(blank_at(l, j));
        } else {
            assert(t[j + 1] == CR);
        }
    }
}

/// Framing a concatenation: the events of the first part, then those of its
/// leftover followed by the second part.
pub proof fn lemma_frames_concat(s: Seq<u8>, t: Seq<u8>)
    ensures
        sse_frames(s + t) == sse_frames(s) + sse_frames(sse_rest(s) + t),
        sse_rest(s + t) == sse_rest(sse_rest(s) + t),
    decreases s.len(),
{
    lemma_first_blank(s);
    match first_blank(s) {
        Some(i) => {
            let st = s + t;
            assert forall|j: int| 0 <= j < i implies !blank_at(st, j) by {
                assert(!blank_at(s, j));
                if j + 1 < s.len() {
                    assert(st[j] == s[j] && st[j + 1] == s[j + 1]);
                }
            }
            assert(st[i] == s[i] && st[i + 1] == s[i + 1]);
            lemma_first_blank(st);
            match first_blank(st) {
                Some(j) => {
                    if j < i {
                        assert(!blank_at(st, j));
                    }
                    if j > i {
                        assert(blank_at(st, i));
                    }
                },
                None => {
                    assert(blank_at(st, i));
                },
            }
            assert(first_blank(st) == Some(i));
            let r = s.skip(i + 2);
            assert(st.take(i) =~= s.take(i));
            assert(st.skip(i + 2) =~= r + t);
            lemma_frames_concat(r, t);
            assert(sse_frames(st) =~= sse_frames(s) + sse_frames(sse_rest(s) + t));
        },
        None => {
            assert(sse_frames(s) + sse_frames(sse_rest(s) + t) =~= sse_frames(s + t));
        },
    }
}

/// The events of concatenated frame lists are the concatenated events.
pub proof fn lemma_frame_events_concat(f1: Seq<Seq<u8>>, f2: Seq<Seq<u8>>)
    ensures
        frame_events(f1 + f2) == frame_events(f1) + frame_events(f2),
    decreases f2.len(),
{
    if f2.len() == 0 {
        assert(f1 + f2 =~= f1);
        assert(frame_events(f1) + frame_events(f2) =~= frame_events(f1));
    } else {
        lemma_frame_events_concat(f1, f2.drop_last());
        assert((f1 + f2).drop_last() =~= f1 + f2.drop_last());
        assert((f1 + f2).last() == f2.last());
        assert(frame_events(f1 + f2) =~= frame_events(f1) + frame_events(f2));
    }
}

/// The non-blank frames of concatenated frame lists are the concatenated ones.
pub proof fn lemma_non_blank_frames_concat(f1: Seq<Seq<u8>>, f2: Seq<Seq<u8>>)
    ensures
        non_blank_frames(f1 + f2) == non_blank_frames(f1) + non_blank_frames(f2),
    decreases f2.len(),
{
    if f2.len() == 0 {
        assert(f1 + f2 =~= f1);
        assert(non_blank_frames(f1) + non_blank_frames(f2) =~= non_blank_frames(f1));
    } else {
        lemma_non_blank_frames_concat(f1, f2.drop_last());
        assert((f1 + f2).drop_last() =~= f1 + f2.drop_last());
        assert((f1 + f2).last() == f2.last());
        assert(non_blank_frames(f1 + f2) =~= non_blank_frames(f1) + non_blank_frames(f2));
    }
}

} // verus!
