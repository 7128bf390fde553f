//! The serde_json and url calls that frame building and reply decoding use.
use vstd::prelude::*;
use crate::ssdp::opt_view;

verus! {

/// A lower-case hexadecimal digit, for `d` below 16.
pub open spec fn hex_digit(d: int) -> char {
    seq!['0', '1', '2', '3', '4', '5', '6', '7', '8', '9', 'a', 'b', 'c', 'd', 'e', 'f'][d]
}

/// How a JSON string literal writes character `c`: quote and backslash
/// behind a backslash, the named control characters by their short
/// escapes, the other control characters below U+0020 as `\u00XX`, and
/// everything else as itself.
pub open spec fn escape_char(c: char) -> Seq<char> {
    if c == '"' {
        seq!['\\', '"']
    } else if c == '\\' {
        seq!['\\', '\\']
    } else if c == '\u{8}' {
        seq!['\\', 'b']
    } else if c == '\t' {
        seq!['\\', 't']
    } else if c == '\n' {
        seq!['\\', 'n']
    } else if c == '\u{c}' {
        seq!['\\', 'f']
    } else if c == '\r' {
        seq!['\\', 'r']
    } else if (c as u32) < 0x20 {
        seq!['\\', 'u', '0', '0', hex_digit((c as u32 / 16) as int), hex_digit((c as u32 % 16) as int)]
    } else {
        seq![c]
    }
}

/// The characters of `s`, each written as a JSON string literal writes it.
pub open spec fn json_escaped(s: Seq<char>) -> Seq<char>
    decreases s.len(),
{
    if s.len() == 0 {
        Seq::empty()
    } else {
        escape_char(s[0]) + json_escaped(s.drop_first())
    }
}

/// The JSON string literal of `s`, quotes included.
pub open spec fn json_quoted(s: Seq<char>) -> Seq<char> {
    seq!['"'] + json_escaped(s) + seq!['"']
}

/// Whether a JSON string literal writes `s` without escapes: no quote, no
/// backslash, no control character below U+0020.
pub open spec fn needs_no_escape(s: Seq<char>) -> bool {
    forall|i: int| 0 <= i < s.len() ==> {
        let c = #[trigger] s[i];
        c != '"' && c != '\\' && c as u32 >= 0x20
    }
}

/// Text that needs no escape is quoted as it stands.
pub proof fn lemma_plain_quoted(s: Seq<char>)
    requires
        needs_no_escape(s),
    ensures
        json_quoted(s) == seq!['"'] + s + seq!['"'],
{
    lemma_plain_escaped(s);
}

proof fn lemma_plain_escaped(s: Seq<char>)
    requires
        needs_no_escape(s),
    ensures
        json_escaped(s) == s,
    decreases s.len(),
{
    if s.len() > 0 {
        let rest = s.drop_first();
        assert forall|i: int| 0 <= i < rest.len() implies {
            let c = #[trigger] rest[i];
            c != '"' && c != '\\' && c as u32 >= 0x20
        } by {
            assert(rest[i] == s[i + 1]);
        }
        lemma_plain_escaped(rest);
        let c = s[0];
        assert(c != '"' && c != '\\' && c as u32 >= 0x20);
        assert(escape_char(c) == seq![c]);
        assert(seq![c] + rest =~= s);
    }
}

/// Relies on `serde_json::to_string` for a `str`: the JSON string literal
/// of `s`.
#[verifier::external_body]
pub(crate) fn json_string(s: &str) -> (r: String)
    ensures
        r@ == json_quoted(s@),
{
    serde_json::to_string(s).unwrap_or_default()
}

/// The text of the JSON string that `pointer` (a JSON Pointer such as
/// `/payload/client-key`) designates in the JSON document `text`; `None`
/// when `text` is not JSON, nothing is there, or what is there is not a
/// string.
pub uninterp spec fn json_pointer_text(text: Seq<char>, pointer: Seq<char>) -> Option<Seq<char>>;

/// Relies on `serde_json::from_str` into a `serde_json::Value`, then
/// `Value::pointer` and `Value::as_str`: the string at `pointer` in `text`.
#[verifier::external_body]
pub(crate) fn json_text_at(text: &str, pointer: &str) -> (r: Option<String>)
    ensures
        opt_view(r) == json_pointer_text(text@, pointer@),
{
    serde_json::from_str::<serde_json::Value>(text).ok().and_then(
        |v| v.pointer(pointer).and_then(|m| m.as_str().map(|t| t.to_string())),
    )
}

/// Whether the url crate accepts `s` as an absolute URL.
pub uninterp spec fn is_valid_url(s: Seq<char>) -> bool;

/// Relies on `url::Url::parse`: whether `s` parses as a URL.
#[verifier::external_body]
pub(crate) fn url_parses(s: &str) -> (r: bool)
    ensures
        r == is_valid_url(s@),
{
    url::Url::parse(s).is_ok()
}

} // verus!
