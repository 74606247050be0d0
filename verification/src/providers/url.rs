//! Joining a base URL and an endpoint path.
use vstd::prelude::*;

use crate::text::{chars_of, string_of};

verus! {

/// `s` without its trailing slashes.
pub open spec fn trim_end_slashes(s: Seq<char>) -> Seq<char>
    decreases s.len(),
{
    if s.len() > 0 && s.last() == '/' {
        trim_end_slashes(s.drop_last())
    } else {
        s
    }
}

/// `s` without its leading slashes.
pub open spec fn trim_start_slashes(s: Seq<char>) -> Seq<char>
    decreases s.len(),
{
    if s.len() > 0 && s[0] == '/' {
        trim_start_slashes(s.drop_first())
    } else {
        s
    }
}

/// `base` and `path` joined by exactly one slash, whatever slashes they bring.
pub open spec fn joined_url(base: Seq<char>, path: Seq<char>) -> Seq<char> {
    trim_end_slashes(base) + seq!['/'] + trim_start_slashes(path)
}

/// Joins a base URL and a path without doubling or losing the slash between
/// them.
pub fn join_url(base: &str, path: &str) -> (url: String)
    ensures
        url@ == joined_url(base@, path@),
{
    let b = chars_of(base);
    let p = chars_of(path);
    let mut end = b.len();
    assert(b@.subrange(0, end as int) =~= b@);
    while end > 0 && b[end - 1] == '/'
        invariant
            end <= b.len(),
            trim_end_slashes(b@) == trim_end_slashes(b@.subrange(0, end as int)),
        decreases end,
    {
        assert(b@.subrange(0, end as int).drop_last() =~= b@.subrange(0, end - 1));
        end = end - 1;
    }
    let mut start: usize = 0;
    assert(p@.subrange(0, p.len() as int) =~= p@);
    while start < p.len() && p[start] == '/'
        invariant
            start <= p.len(),
            trim_start_slashes(p@) == trim_start_slashes(p@.subrange(start as int, p.len() as int)),
        decreases p.len() - start,
    {
        assert(p@.subrange(start as int, p.len() as int).drop_first() =~= p@.subrange(
            start + 1,
            p.len() as int,
        ));
        start = start + 1;
    }
    let mut joined: Vec<char> = Vec::new();
    let mut i: usize = 0;
    while i < end
        invariant
            i <= end <= b.len(),
            joined@ == b@.subrange(0, i as int),
        decreases end - i,
    {
        joined.push(b[i]);
        assert(joined@ =~= b@.subrange(0, i + 1));
        i = i + 1;
    }
    joined.push('/');
    let ghost head = joined@;
    let mut j: usize = start;
    while j < p.len()
        invariant
            start <= j <= p.len(),
            joined@ == head + p@.subrange(start as int, j as int),
        decreases p.len() - j,
    {
        joined.push(p[j]);
        assert(joined@ =~= head + p@.subrange(start as int, j + 1));
        j = j + 1;
    }
    assert(joined@ =~= joined_url(base@, path@));
    string_of(joined.as_slice())
}

} // verus!
