//! Character-level helpers: Unicode case mapping, substring search and
//! whitespace trimming over `Seq<char>` models of strings.
use vstd::prelude::*;

verus! {

/// The lower-case form of `s` under Unicode case mapping.
pub uninterp spec fn lower_of(s: Seq<char>) -> Seq<char>;

/// The upper-case form of `s` under Unicode case mapping.
pub uninterp spec fn upper_of(s: Seq<char>) -> Seq<char>;

/// Whether `needle` occurs in `hay` at position `at`.
pub open spec fn occurs_at_spec(hay: Seq<char>, needle: Seq<char>, at: int) -> bool {
    &&& 0 <= at
    &&& at + needle.len() <= hay.len()
    &&& hay.subrange(at, at + needle.len()) == needle
}

/// Whether `needle` occurs somewhere in `hay`.
pub open spec fn has_substring(hay: Seq<char>, needle: Seq<char>) -> bool {
    exists|at: int| occurs_at_spec(hay, needle, at)
}

/// The characters that Unicode classes as `White_Space`.
pub open spec fn is_space(c: char) -> bool {
    ||| '\t' <= c && c <= '\r'
    ||| c == ' '
    ||| c == '\u{85}'
    ||| c == '\u{a0}'
    ||| c == '\u{1680}'
    ||| '\u{2000}' <= c && c <= '\u{200a}'
    ||| c == '\u{2028}'
    ||| c == '\u{2029}'
    ||| c == '\u{202f}'
    ||| c == '\u{205f}'
    ||| c == '\u{3000}'
}

/// The characters of `s`, in order.
pub fn chars_of(s: &str) -> (r: Vec<char>)
    ensures
        r@ == s@,
{
    let n = s.unicode_len();
    let mut r: Vec<char> = Vec::new();
    let mut i: usize = 0;
    while i < n
        invariant
            n == s@.len(),
            i <= n,
            r@ == s@.subrange(0, i as int),
        decreases n - i,
    {
        r.push(s.get_char(i));
        i = i + 1;
        assert(r@ =~= s@.subrange(0, i as int));
    }
    assert(r@ =~= s@);
    r
}

/// Relies on `str::to_lowercase`: the lower-case form of `s`, which depends
/// on its characters alone.
#[verifier::external_body]
pub(crate) fn lowercase(s: &str) -> (r: String)
    ensures
        r@ == lower_of(s@),
{
    s.to_lowercase()
}

/// Relies on `str::to_uppercase`: the upper-case form of `s`, which depends
/// on its characters alone.
#[verifier::external_body]
pub(crate) fn uppercase(s: &str) -> (r: String)
    ensures
        r@ == upper_of(s@),
{
    s.to_uppercase()
}

pub fn is_space_char(c: char) -> (r: bool)
    ensures
        r == is_space(c),
{
    ('\t' <= c && c <= '\r') || c == ' ' || c == '\u{85}' || c == '\u{a0}' || c == '\u{1680}'
        || ('\u{2000}' <= c && c <= '\u{200a}') || c == '\u{2028}' || c == '\u{2029}'
        || c == '\u{202f}' || c == '\u{205f}' || c == '\u{3000}'
}

/// Whether `needle` occurs in `hay` at `at`.
pub fn occurs_at(hay: &Vec<char>, needle: &Vec<char>, at: usize) -> (r: bool)
    ensures
        r == occurs_at_spec(hay@, needle@, at as int),
{
    if at > hay.len() || needle.len() > hay.len() - at {
        return false;
    }
    let mut k: usize = 0;
    while k < needle.len()
        invariant
            at + needle@.len() <= hay@.len(),
            hay@.len() <= usize::MAX,
            k <= needle@.len(),
            forall|j: int| 0 <= j < k ==> hay@[at + j] == needle@[j],
        decreases needle@.len() - k,
    {
        if hay[at + k] != needle[k] {
            assert(hay@.subrange(at as int, at + needle@.len())[k as int] != needle@[k as int]);
            return false;
        }
        k = k + 1;
    }
    assert(hay@.subrange(at as int, at + needle@.len()) =~= needle@);
    true
}

/// Whether `prefix` begins `s`.
pub fn has_prefix(s: &Vec<char>, prefix: &Vec<char>) -> (r: bool)
    ensures
        r == prefix@.is_prefix_of(s@),
{
    let r = occurs_at(s, prefix, 0);
    assert(r == prefix@.is_prefix_of(s@)) by {
        if prefix@.len() <= s@.len() {
            if prefix@.is_prefix_of(s@) {
                assert(s@.subrange(0, prefix@.len() as int) =~= prefix@);
            }
            if r {
                assert forall|i: int| 0 <= i < prefix@.len() implies prefix@[i] == s@[i] by {
                    assert(s@.subrange(0, prefix@.len() as int)[i] == s@[i]);
                }
            }
        }
    }
    r
}

/// Whether `needle` occurs anywhere in `hay`.
pub fn contains_chars(hay: &Vec<char>, needle: &Vec<char>) -> (r: bool)
    ensures
        r == has_substring(hay@, needle@),
{
    if needle.len() > hay.len() {
        assert forall|at: int| !occurs_at_spec(hay@, needle@, at) by {}
        return false;
    }
    let last = hay.len() - needle.len();
    let mut at: usize = 0;
    loop
        invariant
            last == hay@.len() - needle@.len(),
            at <= last,
            forall|j: int| 0 <= j < at ==> !occurs_at_spec(hay@, needle@, j),
        decreases last - at,
    {
        if occurs_at(hay, needle, at) {
            return true;
        }
        if at == last {
            assert forall|j: int| !occurs_at_spec(hay@, needle@, j) by {
                if 0 <= j && j < at {
                }
            }
            return false;
        }
        at = at + 1;
    }
}

/// Whether `a` and `b` hold the same characters.
pub fn same_text(a: &str, b: &str) -> (r: bool)
    ensures
        r == (a@ == b@),
{
    let x = chars_of(a);
    let y = chars_of(b);
    if x.len() != y.len() {
        return false;
    }
    let mut i: usize = 0;
    while i < x.len()
        invariant
            x@ == a@,
            y@ == b@,
            x@.len() == y@.len(),
            i <= x@.len(),
            forall|k: int| 0 <= k < i ==> x@[k] == y@[k],
        decreases x@.len() - i,
    {
        if x[i] != y[i] {
            return false;
        }
        i = i + 1;
    }
    assert(x@ =~= y@);
    true
}

/// Whether `needle` occurs in `hay`.
pub fn contains_text(hay: &str, needle: &str) -> (r: bool)
    ensures
        r == has_substring(hay@, needle@),
{
    let h = chars_of(hay);
    let n = chars_of(needle);
    contains_chars(&h, &n)
}

} // verus!
