use vstd::prelude::*;

verus! {

/// Whether `c` has the Unicode `White_Space` property, which `char::is_whitespace` tests:
/// tab, line feed, vertical tab, form feed, carriage return, space, next line, no-break
/// space, ogham space mark, the spaces from en quad to hair space, line and paragraph
/// separator, narrow no-break space, medium mathematical space and ideographic space.
pub open spec fn is_whitespace(c: char) -> bool {
    let v = c as u32;
    (0x09 <= v && v <= 0x0D) || v == 0x20 || v == 0x85 || v == 0xA0 || v == 0x1680 || (0x2000
        <= v && v <= 0x200A) || v == 0x2028 || v == 0x2029 || v == 0x202F || v == 0x205F || v
        == 0x3000
}

/// Whether `c` has the Unicode `White_Space` property, as `char::is_whitespace` decides.
pub(crate) fn char_is_whitespace(c: char) -> (r: bool)
    ensures
        r == is_whitespace(c),
{
    let v = c as u32;
    (0x09 <= v && v <= 0x0D) || v == 0x20 || v == 0x85 || v == 0xA0 || v == 0x1680 || (0x2000
        <= v && v <= 0x200A) || v == 0x2028 || v == 0x2029 || v == 0x202F || v == 0x205F || v
        == 0x3000
}

/// What `char::is_alphabetic` answers for `c`: whether `c` has the Unicode `Alphabetic`
/// property.
pub uninterp spec fn unicode_alphabetic(c: char) -> bool;

/// What `char::is_numeric` answers for `c`: whether `c` is in one of the Unicode general
/// categories `Nd`, `Nl` or `No`.
pub uninterp spec fn unicode_numeric(c: char) -> bool;

/// An ASCII letter.
pub open spec fn is_ascii_alphabetic(c: char) -> bool {
    ('a' <= c && c <= 'z') || ('A' <= c && c <= 'Z')
}

/// Whether `c` is alphabetic: among ASCII characters exactly the letters have the
/// `Alphabetic` property; beyond ASCII it is what `char::is_alphabetic` answers.
pub open spec fn is_alphabetic(c: char) -> bool {
    if (c as u32) < 0x80 {
        is_ascii_alphabetic(c)
    } else {
        unicode_alphabetic(c)
    }
}

/// Whether `c` is numeric: among ASCII characters exactly the digits `0` to `9` are in a
/// numeric general category; beyond ASCII it is what `char::is_numeric` answers.
pub open spec fn is_numeric(c: char) -> bool {
    if (c as u32) < 0x80 {
        '0' <= c && c <= '9'
    } else {
        unicode_numeric(c)
    }
}

/// Whether `c` is alphabetic or numeric, as `char::is_alphanumeric` decides.
pub open spec fn is_alphanumeric(c: char) -> bool {
    is_alphabetic(c) || is_numeric(c)
}

/// Calls `char::is_alphabetic`, which tests the Unicode `Alphabetic` property. Among ASCII
/// characters that property holds of the letters `A` to `Z` and `a` to `z` and of nothing
/// else, which the contract claims; beyond ASCII the result is named by
/// `unicode_alphabetic`.
#[verifier::external_body]
pub(crate) fn char_is_alphabetic(c: char) -> (r: bool)
    ensures
        r == (if (c as u32) < 0x80 {
            is_ascii_alphabetic(c)
        } else {
            unicode_alphabetic(c)
        }),
{
    c.is_alphabetic()
}

/// Calls `char::is_alphanumeric`, which std documents as true exactly for the characters
/// that `char::is_alphabetic` or `char::is_numeric` accepts. Among ASCII characters those
/// are the letters and the digits `0` to `9`, which the contract claims; beyond ASCII the
/// result is the disjunction of the names `unicode_alphabetic` and `unicode_numeric`.
#[verifier::external_body]
pub(crate) fn char_is_alphanumeric(c: char) -> (r: bool)
    ensures
        r == (if (c as u32) < 0x80 {
            is_ascii_alphabetic(c) || ('0' <= c && c <= '9')
        } else {
            unicode_alphabetic(c) || unicode_numeric(c)
        }),
{
    c.is_alphanumeric()
}

/// Calls `char::from_u32`, which std documents to give the character with that code
/// exactly when the code is a Unicode scalar value, and `None` otherwise.
#[verifier::external_body]
pub(crate) fn char_from_u32(v: u32) -> (r: Option<char>)
    ensures
        r == (if vstd::utf8::is_scalar(v) {
            Some(v as char)
        } else {
            None
        }),
{
    char::from_u32(v)
}

/// An ASCII decimal digit.
pub open spec fn is_ascii_digit(c: char) -> bool {
    '0' <= c && c <= '9'
}

/// The value of `c` as a digit in `radix` (2, 8, 10 or 16), if it is one.
pub open spec fn digit_value(c: char, radix: u32) -> Option<u32> {
    if '0' <= c && c <= '9' && (c as u32 - '0' as u32) < radix {
        Some((c as u32 - '0' as u32) as u32)
    } else if radix == 16 && 'a' <= c && c <= 'f' {
        Some((c as u32 - 'a' as u32 + 10) as u32)
    } else if radix == 16 && 'A' <= c && c <= 'F' {
        Some((c as u32 - 'A' as u32 + 10) as u32)
    } else {
        None
    }
}

/// Whether `c` is a digit in `radix`, as `char::is_digit` decides.
pub open spec fn is_digit(c: char, radix: u32) -> bool {
    digit_value(c, radix) is Some
}

/// An ASCII hexadecimal digit.
pub open spec fn is_ascii_hexdigit(c: char) -> bool {
    is_digit(c, 16)
}

/// The value of `c` as a digit in `radix` (2, 8, 10 or 16).
pub fn char_digit_value(c: char, radix: u32) -> (r: Option<u32>)
    requires
        radix == 2 || radix == 8 || radix == 10 || radix == 16,
    ensures
        r == digit_value(c, radix),
{
    let v = c as u32;
    if '0' <= c && c <= '9' && v - 48 < radix {
        Some(v - 48)
    } else if radix == 16 && 'a' <= c && c <= 'f' {
        Some(v - 97 + 10)
    } else if radix == 16 && 'A' <= c && c <= 'F' {
        Some(v - 65 + 10)
    } else {
        None
    }
}

/// Whether `c` may start an identifier: an underscore or an alphabetic character.
pub open spec fn spec_is_identifier_start(c: char) -> bool {
    c == '_' || is_alphabetic(c)
}

/// Whether `c` may continue an identifier: an underscore or an alphanumeric character.
pub open spec fn spec_is_identifier_continue(c: char) -> bool {
    c == '_' || is_alphanumeric(c)
}

/// Whether `ch` may start an identifier: an underscore or an alphabetic character.
pub fn is_identifier_start(ch: char) -> (r: bool)
    ensures
        r == spec_is_identifier_start(ch),
{
    ch == '_' || char_is_alphabetic(ch)
}

/// Whether `ch` may continue an identifier: an underscore or an alphanumeric character.
pub fn is_identifier_continue(ch: char) -> (r: bool)
    ensures
        r == spec_is_identifier_continue(ch),
        spec_is_identifier_start(ch) ==> r,
{
    ch == '_' || char_is_alphanumeric(ch)
}

} // verus!
