//! Unicode case mapping of strings, from the standard library.
use vstd::prelude::*;

use crate::text::{is_white_space, strip_leading, strip_trailing, trimmed};

verus! {

/// An ASCII character.
pub open spec fn is_ascii_char(c: char) -> bool {
    (c as u32) < 128
}

/// Every character of the text is ASCII.
pub open spec fn all_ascii(s: Seq<char>) -> bool {
    forall|i: int| 0 <= i < s.len() ==> is_ascii_char(#[trigger] s[i])
}

/// The lower-case form of an ASCII character: `A`-`Z` become `a`-`z`, the rest stay.
pub open spec fn ascii_lower(c: char) -> char {
    if 'A' <= c && c <= 'Z' {
        ((c as u32) + 32) as char
    } else {
        c
    }
}

/// The upper-case form of an ASCII character: `a`-`z` become `A`-`Z`, the rest stay.
pub open spec fn ascii_upper(c: char) -> char {
    if 'a' <= c && c <= 'z' {
        ((c as u32) - 32) as char
    } else {
        c
    }
}

/// ASCII text lower-cased character by character.
pub open spec fn ascii_lowered(s: Seq<char>) -> Seq<char> {
    s.map_values(|c: char| ascii_lower(c))
}

/// ASCII text upper-cased character by character.
pub open spec fn ascii_uppered(s: Seq<char>) -> Seq<char> {
    s.map_values(|c: char| ascii_upper(c))
}

/// The lower-case equivalent of a string under Unicode's `Lowercase` mapping.
pub uninterp spec fn spec_to_lowercase(s: Seq<char>) -> Seq<char>;

/// The upper-case equivalent of a string under Unicode's `Uppercase` mapping.
pub uninterp spec fn spec_to_uppercase(s: Seq<char>) -> Seq<char>;

/// The lower-case form of a text: ASCII text lower-cased character by character, other
/// text by Unicode's `Lowercase` mapping.
pub open spec fn lowered(s: Seq<char>) -> Seq<char> {
    if all_ascii(s) {
        ascii_lowered(s)
    } else {
        spec_to_lowercase(s)
    }
}

/// Calls `str::to_lowercase`. Trusted: the result is named, not restated; the one fact
/// stated is that ASCII text is lower-cased character by character, `A`-`Z` to `a`-`z`, as
/// the standard library documents for ASCII (the Unicode `Lowercase` mapping of an ASCII
/// character is its ASCII lower-case form, and no ASCII character maps to more than one).
#[verifier::external_body]
pub(crate) fn to_lowercase(s: &str) -> (r: String)
    ensures
        r@ == spec_to_lowercase(s@),
        all_ascii(s@) ==> r@ == ascii_lowered(s@),
{
    s.to_lowercase()
}

/// Calls `str::to_uppercase`. Trusted: the result is named, not restated; the one fact
/// stated is that ASCII text is upper-cased character by character, `a`-`z` to `A`-`Z`.
#[verifier::external_body]
pub(crate) fn to_uppercase(s: &str) -> (r: String)
    ensures
        r@ == spec_to_uppercase(s@),
        all_ascii(s@) ==> r@ == ascii_uppered(s@),
{
    s.to_uppercase()
}

/// A character of an identifier name: a lower-case ASCII letter, `_` or `-`.
pub open spec fn is_identifier_char(c: char) -> bool {
    ('a' <= c && c <= 'z') || c == '_' || c == '-'
}

/// An identifier name is its own trimmed, lower-cased form, and so is its upper-case form
/// once lower-cased again.
pub proof fn identifier_case_forms(s: Seq<char>)
    requires
        s.len() > 0,
        forall|i: int| 0 <= i < s.len() ==> is_identifier_char(#[trigger] s[i]),
    ensures
        trimmed(s) == s,
        lowered(s) == s,
        trimmed(ascii_uppered(s)) == ascii_uppered(s),
        lowered(ascii_uppered(s)) == s,
{
    let u = ascii_uppered(s);
    assert(is_identifier_char(s[0]) && is_identifier_char(s.last()));
    assert(!is_white_space(s[0]) && !is_white_space(s.last()));
    assert(strip_leading(s) == s);
    assert(strip_trailing(s) == s);
    assert(u[0] == ascii_upper(s[0]) && u.last() == ascii_upper(s.last()));
    assert(!is_white_space(u[0]) && !is_white_space(u.last()));
    assert(strip_leading(u) == u);
    assert(strip_trailing(u) == u);
    assert(all_ascii(s));
    assert(ascii_lowered(s) =~= s);
    assert forall|i: int| 0 <= i < u.len() implies is_ascii_char(#[trigger] u[i]) by {
        assert(is_identifier_char(s[i]));
    }
    assert forall|i: int| 0 <= i < u.len() implies #[trigger] ascii_lowered(u)[i] == s[i] by {
        assert(is_identifier_char(s[i]));
    }
    assert(ascii_lowered(u) =~= s);
}

} // verus!
