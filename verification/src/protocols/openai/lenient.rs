//! Reading token counts and indices that vendors send in loose forms: the
//! integer cases, which need no floating point.
use vstd::prelude::*;

use crate::text::chars_of;

verus! {

/// A number that fits a `u32`, as one.
pub open spec fn fitting_u32(v: int) -> Option<u32> {
    if 0 <= v <= u32::MAX {
        Some(v as u32)
    } else {
        None
    }
}

/// An unsigned JSON integer as a `u32`, when it fits.
pub fn u32_of_unsigned(v: u64) -> (r: Option<u32>)
    ensures
        r == fitting_u32(v as int),
{
    if v <= 0xffff_ffffu64 {
        Some(v as u32)
    } else {
        None
    }
}

/// A signed JSON integer as a `u32`, when it fits.
pub fn u32_of_signed(v: i64) -> (r: Option<u32>)
    ensures
        r == fitting_u32(v as int),
{
    if 0 <= v && v <= 0xffff_ffffi64 {
        Some(v as u32)
    } else {
        None
    }
}

/// An ASCII decimal digit.
pub open spec fn is_digit(c: char) -> bool {
    '0' <= c && c <= '9'
}

/// The value of a string of decimal digits.
pub open spec fn digits_value(d: Seq<char>) -> int
    decreases d.len(),
{
    if d.len() == 0 {
        0
    } else {
        digits_value(d.drop_last()) * 10 + (d.last() as int - '0' as int)
    }
}

/// The digits of a decimal text, after an optional `+`.
pub open spec fn unsigned_digits(s: Seq<char>) -> Seq<char> {
    if s.len() > 0 && s[0] == '+' {
        s.drop_first()
    } else {
        s
    }
}

/// What `str::parse::<u32>` reads from `s`: an optional `+`, then one or
/// more decimal digits whose value fits a `u32`; nothing else is accepted.
pub open spec fn decimal_u32(s: Seq<char>) -> Option<u32> {
    let d = unsigned_digits(s);
    if d.len() > 0 && (forall|i: int| 0 <= i < d.len() ==> is_digit(#[trigger] d[i])) {
        fitting_u32(digits_value(d))
    } else {
        None
    }
}

/// A prefix of a string of digits is worth no more than the whole.
proof fn lemma_digits_prefix(d: Seq<char>, k: int)
    requires
        0 <= k <= d.len(),
        forall|i: int| 0 <= i < d.len() ==> is_digit(#[trigger] d[i]),
    ensures
        0 <= digits_value(d.take(k)) <= digits_value(d),
    decreases d.len(),
{
    if d.len() > 0 {
        let p = d.drop_last();
        assert forall|i: int| 0 <= i < p.len() implies is_digit(#[trigger] p[i]) by {
            assert(p[i] == d[i]);
        }
        assert(is_digit(d[d.len() - 1]));
        if k == d.len() {
            assert(d.take(k) =~= d);
            lemma_digits_prefix(p, p.len() as int);
            assert(p.take(p.len() as int) =~= p);
        } else {
            assert(d.take(k) =~= p.take(k));
            lemma_digits_prefix(p, k);
            lemma_digits_prefix(p, p.len() as int);
            assert(p.take(p.len() as int) =~= p);
        }
    } else {
        assert(d.take(k) =~= d);
    }
}

/// `str::parse::<u32>` on a decimal text.
pub fn parse_decimal_u32(s: &str) -> (r: Option<u32>)
    ensures
        r == decimal_u32(s@),
{
    let chars = chars_of(s);
    let start: usize = if chars.len() > 0 && chars[0] == '+' {
        1
    } else {
        0
    };
    let ghost d = unsigned_digits(s@);
    assert(d =~= chars@.subrange(start as int, chars@.len() as int));
    if start == chars.len() {
        return None;
    }
    let mut acc: u64 = 0;
    let mut i: usize = start;
    assert(chars@.subrange(start as int, start as int) =~= Seq::<char>::empty());
    while i < chars.len()
        invariant
            start <= i <= chars@.len(),
            chars@ == s@,
            d == chars@.subrange(start as int, chars@.len() as int),
            d == unsigned_digits(s@),
            acc as int == digits_value(chars@.subrange(start as int, i as int)),
            acc <= u32::MAX,
            forall|j: int| start <= j < i ==> is_digit(#[trigger] chars@[j]),
        decreases chars.len() - i,
    {
        let c = chars[i];
        if !('0' <= c && c <= '9') {
            assert(d[i - start] == c);
            return None;
        }
        let digit = (c as u32 - '0' as u32) as u64;
        assert(chars@.subrange(start as int, i + 1).drop_last() =~= chars@.subrange(
            start as int,
            i as int,
        ));
        acc = acc * 10 + digit;
        if acc > 0xffff_ffffu64 {
            proof {
                if forall|j: int| 0 <= j < d.len() ==> is_digit(#[trigger] d[j]) {
                    lemma_digits_prefix(d, i + 1 - start);
                    assert(d.take(i + 1 - start) =~= chars@.subrange(start as int, i + 1));
                }
            }
            return None;
        }
        i = i + 1;
    }
    assert(chars@.subrange(start as int, i as int) =~= d);
    Some(acc as u32)
}

} // verus!
