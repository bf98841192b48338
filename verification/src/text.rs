//! Text: the operations of std's strings that the rules are stated with.

use vstd::prelude::*;

verus! {

/// The characters with Unicode's White_Space property.
pub open spec fn is_white_space(c: char) -> bool {
    ||| '\u{9}' <= c <= '\u{d}'
    ||| c == '\u{20}'
    ||| c == '\u{85}'
    ||| c == '\u{a0}'
    ||| c == '\u{1680}'
    ||| '\u{2000}' <= c <= '\u{200a}'
    ||| c == '\u{2028}'
    ||| c == '\u{2029}'
    ||| c == '\u{202f}'
    ||| c == '\u{205f}'
    ||| c == '\u{3000}'
}

/// `text` without white space at its ends.
pub open spec fn trimmed(text: Seq<char>) -> Seq<char>
    decreases text.len(),
{
    if text.len() > 0 && is_white_space(text.first()) {
        trimmed(text.drop_first())
    } else if text.len() > 0 && is_white_space(text.last()) {
        trimmed(text.drop_last())
    } else {
        text
    }
}

/// `str::trim`: the part of `text` between the white space at its ends, where white space is
/// what has Unicode's White_Space property.
#[verifier::external_body]
pub(crate) fn trim(text: &str) -> (inner: &str)
    ensures
        inner@ == trimmed(text@),
{
    text.trim()
}

/// What `str::to_lowercase` makes of a text.
pub uninterp spec fn lowercased(text: Seq<char>) -> Seq<char>;

/// `str::to_lowercase`: the lower case of `text` by Unicode's tables, which depends on nothing
/// but `text`.
#[verifier::external_body]
pub(crate) fn to_lowercase(text: &str) -> (lower: String)
    ensures
        lower@ == lowercased(text@),
{
    text.to_lowercase()
}

/// An ASCII capital in lower case, any other character as it is.
pub open spec fn ascii_lower(c: char) -> char {
    if 'A' <= c <= 'Z' {
        (c as u32 + 32) as char
    } else {
        c
    }
}

/// `text` with its ASCII capitals in lower case.
pub open spec fn ascii_lowered(text: Seq<char>) -> Seq<char> {
    Seq::new(text.len(), |i: int| ascii_lower(text[i]))
}

/// `str::to_ascii_lowercase`: `A` to `Z` become `a` to `z`, and no other character changes.
#[verifier::external_body]
pub(crate) fn to_ascii_lowercase(text: &str) -> (lower: String)
    ensures
        lower@ == ascii_lowered(text@),
{
    text.to_ascii_lowercase()
}

/// `part` occurs in `text` at a place.
pub open spec fn occurs_at(text: Seq<char>, part: Seq<char>, at: int) -> bool {
    0 <= at <= text.len() - part.len() && text.subrange(at, at + part.len()) == part
}

/// `part` occurs somewhere in `text`.
pub open spec fn occurs(text: Seq<char>, part: Seq<char>) -> bool {
    exists|at: int| occurs_at(text, part, at)
}

/// `str::contains` with a string for a pattern: whether the pattern is a part of `text`.
#[verifier::external_body]
pub(crate) fn contains(text: &str, part: &str) -> (found: bool)
    ensures
        found == occurs(text@, part@),
{
    text.contains(part)
}

/// Whether two texts are the same.
pub(crate) fn same(a: &str, b: &str) -> (same: bool)
    ensures
        same == (a@ == b@),
{
    a.to_owned() == b.to_owned()
}

/// A text of its own, where there is one.
pub(crate) fn owned(text: Option<&str>) -> (copy: Option<String>)
    ensures
        crate::value::string_view(copy) == crate::value::str_view(text),
{
    match text {
        Some(text) => Some(text.to_owned()),
        None => None,
    }
}

/// A borrowed text, where there is one.
pub(crate) fn borrowed(text: &Option<String>) -> (slice: Option<&str>)
    ensures
        crate::value::str_view(slice) == crate::value::string_view(*text),
{
    match text {
        Some(text) => Some(text.as_str()),
        None => None,
    }
}

} // verus!
