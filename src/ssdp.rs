//! SSDP reply parsing: header lookup, value trimming and vendor
//! classification.
use vstd::prelude::*;
use crate::text::{chars_of, contains_text, has_prefix, has_substring, is_space, is_space_char, lower_of, lowercase, upper_of, uppercase};

verus! {

/// The offset of the first `c` in `s` at or after `i`, or `s.len()`.
pub open spec fn index_from(s: Seq<char>, i: int, c: char) -> int
    decreases s.len() - i,
{
    if i < 0 || i >= s.len() || s[i] == c {
        i
    } else {
        index_from(s, i + 1, c)
    }
}

/// Whether a line of `s` begins at `p`: the text is split at each `'\n'`,
/// and nothing after a final `'\n'` counts as a line.
pub open spec fn is_line_start(s: Seq<char>, p: int) -> bool {
    0 <= p < s.len() && (p == 0 || s[p - 1] == '\n')
}

/// The line of `s` that begins at `p`, without its `"\n"` or `"\r\n"` ending.
pub open spec fn line_at(s: Seq<char>, p: int) -> Seq<char> {
    let rest = s.subrange(p, s.len() as int);
    let e = index_from(rest, 0, '\n');
    if e < rest.len() && e > 0 && rest[e - 1] == '\r' {
        rest.subrange(0, e - 1)
    } else {
        rest.subrange(0, e)
    }
}

/// The offset of the first character of `s` at or after `i` that is not
/// white space, or `s.len()`.
pub open spec fn lead_from(s: Seq<char>, i: int) -> int
    decreases s.len() - i,
{
    if i < 0 || i >= s.len() || !is_space(s[i]) {
        i
    } else {
        lead_from(s, i + 1)
    }
}

/// The end of `s.subrange(0, j)` once white space is dropped from its end.
pub open spec fn trail_from(s: Seq<char>, j: int) -> int
    decreases j,
{
    if j <= 0 || j > s.len() || !is_space(s[j - 1]) {
        j
    } else {
        trail_from(s, j - 1)
    }
}

proof fn lemma_trail_bounded(s: Seq<char>, j: int)
    ensures
        trail_from(s, j) <= j,
    decreases j,
{
    if j > 0 && j <= s.len() && is_space(s[j - 1]) {
        lemma_trail_bounded(s, j - 1);
    }
}

/// `s` without leading and trailing white space.
pub open spec fn trim(s: Seq<char>) -> Seq<char> {
    let a = lead_from(s, 0);
    let b = trail_from(s, s.len() as int);
    if a < b {
        s.subrange(a, b)
    } else {
        Seq::empty()
    }
}

/// The value of a `Name: value` line: what follows its first colon,
/// trimmed; `None` when the line has no colon.
pub open spec fn field_value(line: Seq<char>) -> Option<Seq<char>> {
    let c = index_from(line, 0, ':');
    if c < line.len() {
        Some(trim(line.subrange(c + 1, line.len() as int)))
    } else {
        None
    }
}

/// Whether the line of `s` at `p`, in upper case, begins with `name`.
pub open spec fn names_header(s: Seq<char>, name: Seq<char>, p: int) -> bool {
    is_line_start(s, p) && name.is_prefix_of(upper_of(line_at(s, p)))
}

/// Whether `p` is the first line of `s` that begins with `name`.
pub open spec fn first_header_line(s: Seq<char>, name: Seq<char>, p: int) -> bool {
    names_header(s, name, p) && forall|q: int| 0 <= q < p ==> !names_header(s, name, q)
}

/// The value of header `name` in the reply text `s`: the first line whose
/// upper-case form begins with `name` decides, and a line without a
/// colon yields no value.
pub open spec fn header_value(s: Seq<char>, name: Seq<char>) -> Option<Seq<char>> {
    if exists|p: int| first_header_line(s, name, p) {
        field_value(line_at(s, choose|p: int| first_header_line(s, name, p)))
    } else {
        None
    }
}

/// The view of an optional string.
pub open spec fn opt_view(o: Option<String>) -> Option<Seq<char>> {
    match o {
        Some(v) => Some(v@),
        None => None,
    }
}

/// The first index at or after `from` and before `to` holding `c`, or `to`.
fn find_char(cs: &Vec<char>, from: usize, to: usize, c: char) -> (r: usize)
    requires
        from <= to <= cs@.len(),
    ensures
        from <= r <= to,
        r - from == index_from(cs@.subrange(from as int, to as int), 0, c),
        forall|k: int| from <= k < r ==> cs@[k] != c,
        r < to ==> cs@[r as int] == c,
{
    let ghost sub = cs@.subrange(from as int, to as int);
    let mut j = from;
    while j < to && cs[j] != c
        invariant
            from <= j <= to <= cs@.len(),
            sub == cs@.subrange(from as int, to as int),
            index_from(sub, j - from, c) == index_from(sub, 0, c),
            forall|k: int| from <= k < j ==> cs@[k] != c,
        decreases to - j,
    {
        assert(sub[j - from] == cs@[j as int]);
        j = j + 1;
    }
    if j < to {
        assert(sub[j - from] == cs@[j as int]);
    }
    j
}

/// `cs[a..b]` without leading and trailing white space, as a range.
fn trim_range(cs: &Vec<char>, a: usize, b: usize) -> (r: (usize, usize))
    requires
        a <= b <= cs@.len(),
    ensures
        a <= r.0 <= r.1 <= b,
        cs@.subrange(r.0 as int, r.1 as int) == trim(cs@.subrange(a as int, b as int)),
{
    let ghost sub = cs@.subrange(a as int, b as int);
    let mut i = a;
    while i < b && is_space_char(cs[i])
        invariant
            a <= i <= b <= cs@.len(),
            sub == cs@.subrange(a as int, b as int),
            lead_from(sub, i - a) == lead_from(sub, 0),
        decreases b - i,
    {
        assert(sub[i - a] == cs@[i as int]);
        i = i + 1;
    }
    if i < b {
        assert(sub[i - a] == cs@[i as int]);
    }
    assert(lead_from(sub, 0) == i - a);
    let mut j = b;
    while j > i && is_space_char(cs[j - 1])
        invariant
            a <= i <= j <= b <= cs@.len(),
            sub == cs@.subrange(a as int, b as int),
            lead_from(sub, 0) == i - a,
            i < b ==> !is_space(cs@[i as int]),
            i < b ==> j > i,
            trail_from(sub, j - a) == trail_from(sub, sub.len() as int),
        decreases j,
    {
        assert(sub[j - 1 - a] == cs@[j - 1]);
        j = j - 1;
    }
    if i < b {
        assert(j > i);
        assert(sub[j - 1 - a] == cs@[j - 1]);
        assert(trail_from(sub, j - a) == j - a);
        assert(cs@.subrange(i as int, j as int) =~= sub.subrange(i - a, j - a));
    } else {
        proof {
            lemma_trail_bounded(sub, sub.len() as int);
        }
        assert(cs@.subrange(i as int, j as int) =~= Seq::<char>::empty());
    }
    (i, j)
}

/// The value of header `header` in the reply text `response`.
pub fn extract_header(response: &str, header: &str) -> (r: Option<String>)
    ensures
        opt_view(r) == header_value(response@, header@),
{
    let cs = chars_of(response);
    let h = chars_of(header);
    let n = cs.len();
    let ghost s = cs@;
    let mut start: usize = 0;
    while start < n
        invariant
            s == cs@,
            s == response@,
            h@ == header@,
            n == s.len(),
            start <= n,
            start == 0 || s[start - 1] == '\n',
            forall|q: int| 0 <= q < start ==> !names_header(s, h@, q),
        decreases n - start,
    {
        let e = find_char(&cs, start, n, '\n');
        let ghost rest = s.subrange(start as int, n as int);
        let mut end = e;
        if e < n && e > start && cs[e - 1] == '\r' {
            end = e - 1;
        }
        assert(line_at(s, start as int) =~= s.subrange(start as int, end as int));
        let ghost line = s.subrange(start as int, end as int);
        let text = response.substring_char(start, end);
        let upper = uppercase(text);
        let uc = chars_of(upper.as_str());
        let hit = has_prefix(&uc, &h);
        if hit {
            assert(first_header_line(s, h@, start as int));
            assert(forall|p: int| first_header_line(s, h@, p) ==> p == start) by {
                assert forall|p: int| first_header_line(s, h@, p) implies p == start by {
                    if p < start {
                    } else if p > start {
                        assert(names_header(s, h@, start as int));
                    }
                }
            }
            let c = find_char(&cs, start, end, ':');
            assert(line.subrange(0, c - start) =~= s.subrange(start as int, c as int));
            if c < end {
                let (a, b) = trim_range(&cs, c + 1, end);
                assert(line.subrange(c - start + 1, line.len() as int) =~= s.subrange(c + 1, end as int));
                let v = response.substring_char(a, b);
                return Some(String::from_str(v));
            }
            return None;
        }
        assert forall|q: int| 0 <= q < e + 1 && q <= n implies !names_header(s, h@, q) by {
            if start < q && q <= e && q < n {
                assert(s[q - 1] != '\n');
            }
        }
        if e >= n {
            assert forall|q: int| !names_header(s, h@, q) by {
            }
            return None;
        }
        start = e + 1;
    }
    assert forall|p: int| !first_header_line(s, h@, p) by {
    }
    None
}

/// The vendors that discovery tells apart.
#[derive(Clone, Copy, Debug, PartialEq, Eq, Structural)]
pub enum Vendor {
    Samsung,
    Lg,
    Roku,
    AndroidTv,
    /// A Linux-based device that may be a TV: a low-confidence guess.
    Generic,
    Unknown,
}

/// Vendor classification of a lower-case server string: ordered substring
/// rules, the first that matches wins.
pub open spec fn vendor_of_lower(l: Seq<char>) -> Vendor {
    if has_substring(l, "samsung"@) || has_substring(l, "tizen"@) {
        Vendor::Samsung
    } else if has_substring(l, "lg"@) || has_substring(l, "webos"@) {
        Vendor::Lg
    } else if has_substring(l, "roku"@) {
        Vendor::Roku
    } else if has_substring(l, "android"@) || has_substring(l, "google"@) {
        Vendor::AndroidTv
    } else if has_substring(l, "linux"@) {
        Vendor::Generic
    } else {
        Vendor::Unknown
    }
}

/// Vendor classification of a server string, by the rules applied to its
/// lower-case form.
pub open spec fn vendor_of(server: Seq<char>) -> Vendor {
    vendor_of_lower(lower_of(server))
}

impl Vendor {
    /// The label that device records carry for this vendor.
    pub open spec fn spec_label(self) -> Seq<char> {
        match self {
            Vendor::Samsung => "Samsung"@,
            Vendor::Lg => "LG"@,
            Vendor::Roku => "Roku"@,
            Vendor::AndroidTv => "Android TV"@,
            Vendor::Generic => "Posible TV/Server"@,
            Vendor::Unknown => "Desconocido"@,
        }
    }

    pub fn label(&self) -> (r: &'static str)
        ensures
            r@ == self.spec_label(),
    {
        match self {
            Vendor::Samsung => "Samsung",
            Vendor::Lg => "LG",
            Vendor::Roku => "Roku",
            Vendor::AndroidTv => "Android TV",
            Vendor::Generic => "Posible TV/Server",
            Vendor::Unknown => "Desconocido",
        }
    }
}

/// Classifies a server or user-agent string by vendor.
pub fn classify_vendor(server: &str) -> (r: Vendor)
    ensures
        r == vendor_of(server@),
{
    let lower = lowercase(server);
    let l = lower.as_str();
    if contains_text(l, "samsung") || contains_text(l, "tizen") {
        Vendor::Samsung
    } else if contains_text(l, "lg") || contains_text(l, "webos") {
        Vendor::Lg
    } else if contains_text(l, "roku") {
        Vendor::Roku
    } else if contains_text(l, "android") || contains_text(l, "google") {
        Vendor::AndroidTv
    } else if contains_text(l, "linux") {
        Vendor::Generic
    } else {
        Vendor::Unknown
    }
}

/// The vendor label of a server or user-agent string.
pub fn identify_brand(server: &str) -> (r: String)
    ensures
        r@ == vendor_of(server@).spec_label(),
{
    let v = classify_vendor(server);
    String::from_str(v.label())
}

} // verus!
