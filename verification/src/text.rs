//! Character-level text helpers: Unicode whitespace, trimming and the
//! conversions between `String` and a vector of its characters.
use vstd::prelude::*;

verus! {

/// The characters with the Unicode `White_Space` property, which is what
/// `char::is_whitespace` (and so `str::trim`) tests.
pub open spec fn is_whitespace(c: char) -> bool {
    ||| c == ' '
    ||| ('\t' <= c && c <= '\r')
    ||| c == '\u{85}'
    ||| c == '\u{A0}'
    ||| c == '\u{1680}'
    ||| ('\u{2000}' <= c && c <= '\u{200A}')
    ||| c == '\u{2028}'
    ||| c == '\u{2029}'
    ||| c == '\u{202F}'
    ||| c == '\u{205F}'
    ||| c == '\u{3000}'
}

/// Every character of `t` is whitespace (so `t.trim()` is empty).
pub open spec fn is_blank(t: Seq<char>) -> bool {
    forall|i: int| 0 <= i < t.len() ==> is_whitespace(#[trigger] t[i])
}

/// `t` without its leading whitespace.
pub open spec fn trim_start(t: Seq<char>) -> Seq<char>
    decreases t.len(),
{
    if t.len() > 0 && is_whitespace(t[0]) {
        trim_start(t.drop_first())
    } else {
        t
    }
}

/// `t` without its trailing whitespace.
pub open spec fn trim_end(t: Seq<char>) -> Seq<char>
    decreases t.len(),
{
    if t.len() > 0 && is_whitespace(t.last()) {
        trim_end(t.drop_last())
    } else {
        t
    }
}

/// `t` without leading and trailing whitespace, as `str::trim` gives it.
pub open spec fn trim(t: Seq<char>) -> Seq<char> {
    trim_end(trim_start(t))
}

/// Text that becomes an owned `String`: a `&str` or a `String`.
pub trait IntoText: Sized {
    /// The characters of the text.
    spec fn text_view(&self) -> Seq<char>;

    /// The text as an owned `String`.
    fn into_text(self) -> (s: String)
        ensures
            s@ == self.text_view(),
    ;
}

impl<'a> IntoText for &'a str {
    open spec fn text_view(&self) -> Seq<char> {
        (**self)@
    }

    fn into_text(self) -> (s: String) {
        self.to_owned()
    }
}

impl IntoText for String {
    open spec fn text_view(&self) -> Seq<char> {
        self@
    }

    fn into_text(self) -> (s: String) {
        self
    }
}

/// `parts` joined with `sep` between consecutive parts.
pub open spec fn join_with(parts: Seq<Seq<char>>, sep: Seq<char>) -> Seq<char>
    decreases parts.len(),
{
    if parts.len() == 0 {
        Seq::empty()
    } else if parts.len() == 1 {
        parts[0]
    } else {
        join_with(parts.drop_last(), sep) + sep + parts.last()
    }
}

/// `char::is_whitespace`.
pub fn is_whitespace_char(c: char) -> (b: bool)
    ensures
        b == is_whitespace(c),
{
    c == ' ' || ('\t' <= c && c <= '\r') || c == '\u{85}' || c == '\u{A0}' || c == '\u{1680}'
        || ('\u{2000}' <= c && c <= '\u{200A}') || c == '\u{2028}' || c == '\u{2029}' || c
        == '\u{202F}' || c == '\u{205F}' || c == '\u{3000}'
}

/// The characters of `s`, in order.
pub fn chars_of(s: &str) -> (chars: Vec<char>)
    ensures
        chars@ == s@,
{
    let mut chars: Vec<char> = Vec::new();
    for c in it: s.chars()
        invariant
            it.seq() == s@,
            chars@ == it.seq().take(it.index()),
    {
        assert(it.seq().take(it.index() + 1) =~= chars@.push(c));
        chars.push(c);
    }
    assert(s@.take(s@.len() as int) =~= s@);
    chars
}

/// `String::push`: appends one character.
#[verifier::external_body]
fn push_char(s: &mut String, c: char)
    ensures
        final(s)@ == old(s)@.push(c),
{
    s.push(c);
}

/// The string made of `chars`, in order.
pub fn string_of(chars: &[char]) -> (s: String)
    ensures
        s@ == chars@,
{
    let mut s = String::new();
    let mut i: usize = 0;
    while i < chars.len()
        invariant
            i <= chars.len(),
            s@ == chars@.take(i as int),
        decreases chars.len() - i,
    {
        assert(chars@.take(i + 1) =~= chars@.take(i as int).push(chars[i as int]));
        push_char(&mut s, chars[i]);
        i = i + 1;
    }
    assert(chars@.take(chars.len() as int) =~= chars@);
    s
}

/// Trimming leading whitespace from a suffix that starts with whitespace
/// continues one character further.
pub proof fn lemma_trim_start_step(t: Seq<char>, k: int, end: int)
    requires
        0 <= k < end <= t.len(),
        is_whitespace(t[k]),
    ensures
        trim_start(t.subrange(k, end)) == trim_start(t.subrange(k + 1, end)),
{
    assert(t.subrange(k, end).drop_first() =~= t.subrange(k + 1, end));
}

/// Trimming trailing whitespace from a prefix that ends with whitespace
/// continues one character further.
pub proof fn lemma_trim_end_step(t: Seq<char>, start: int, k: int)
    requires
        0 <= start < k <= t.len(),
        is_whitespace(t[k - 1]),
    ensures
        trim_end(t.subrange(start, k)) == trim_end(t.subrange(start, k - 1)),
{
    assert(t.subrange(start, k).drop_last() =~= t.subrange(start, k - 1));
}

/// Positions `(a, b)` with `t[a..b]` equal to `trim(t)`.
pub fn trim_bounds(t: &Vec<char>) -> (bounds: (usize, usize))
    ensures
        bounds.0 <= bounds.1 <= t.len(),
        t@.subrange(bounds.0 as int, bounds.1 as int) == trim(t@),
{
    let n = t.len();
    let mut a: usize = 0;
    assert(t@.subrange(0, n as int) =~= t@);
    while a < n && is_whitespace_char(t[a])
        invariant
            a <= n == t.len(),
            trim_start(t@) == trim_start(t@.subrange(a as int, n as int)),
        decreases n - a,
    {
        proof {
            lemma_trim_start_step(t@, a as int, n as int);
        }
        a = a + 1;
    }
    assert(trim_start(t@) == t@.subrange(a as int, n as int));
    let mut b: usize = n;
    while b > a && is_whitespace_char(t[b - 1])
        invariant
            a <= b <= n == t.len(),
            trim(t@) == trim_end(t@.subrange(a as int, b as int)),
        decreases b,
    {
        proof {
            lemma_trim_end_step(t@, a as int, b as int);
        }
        b = b - 1;
    }
    (a, b)
}

/// Whether `s.trim()` is empty, that is, whether every character is whitespace.
pub fn is_blank_str(s: &str) -> (b: bool)
    ensures
        b == is_blank(s@),
{
    let chars = chars_of(s);
    let mut i: usize = 0;
    while i < chars.len()
        invariant
            i <= chars.len(),
            chars@ == s@,
            forall|j: int| 0 <= j < i ==> is_whitespace(#[trigger] chars@[j]),
        decreases chars.len() - i,
    {
        if !is_whitespace_char(chars[i]) {
            return false;
        }
        i = i + 1;
    }
    true
}

/// A trimmed text is empty exactly when the text is blank.
pub proof fn lemma_trim_empty_iff_blank(t: Seq<char>)
    ensures
        (trim(t).len() == 0) == is_blank(t),
{
    lemma_trim_start_blank(t);
    lemma_trim_end_blank(trim_start(t));
}

proof fn lemma_trim_start_blank(t: Seq<char>)
    ensures
        (trim_start(t).len() == 0) == is_blank(t),
        trim_start(t).len() > 0 ==> !is_whitespace(trim_start(t)[0]),
    decreases t.len(),
{
    if t.len() > 0 && is_whitespace(t[0]) {
        lemma_trim_start_blank(t.drop_first());
        if is_blank(t.drop_first()) {
            assert forall|i: int| 0 <= i < t.len() implies is_whitespace(#[trigger] t[i]) by {
                if i > 0 {
                    assert(t[i] == t.drop_first()[i - 1]);
                }
            }
        }
        if is_blank(t) {
            assert forall|i: int| 0 <= i < t.drop_first().len() implies is_whitespace(
                #[trigger] t.drop_first()[i],
            ) by {
                assert(t.drop_first()[i] == t[i + 1]);
            }
        }
    } else if t.len() > 0 {
        assert(!is_whitespace(t[0]));
    }
}

proof fn lemma_trim_end_blank(t: Seq<char>)
    requires
        t.len() > 0 ==> !is_whitespace(t[0]),
    ensures
        (trim_end(t).len() == 0) == (t.len() == 0),
    decreases t.len(),
{
    if t.len() > 0 && is_whitespace(t.last()) {
        if t.len() > 1 {
            lemma_trim_end_blank(t.drop_last());
        } else {
            assert(t.last() == t[0]);
        }
    }
}

} // verus!
