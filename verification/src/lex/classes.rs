//! Character classes.
//!
//! ASCII characters are classified here, by rules that the proofs can see.
//! For every other character the answer is that of the Unicode tables of the
//! standard library, which are named below and not defined.

use vstd::prelude::*;

verus! {

/// What `char::is_whitespace` returns for `c`: whether `c` is whitespace in
/// the Unicode tables (`White_Space`).
pub uninterp spec fn unicode_whitespace(c: char) -> bool;

/// What `char::is_alphanumeric` returns for `c`: whether `c` is alphabetic or
/// numeric in the Unicode tables.
pub uninterp spec fn unicode_alphanumeric(c: char) -> bool;

/// `char::is_whitespace` is a function of the character alone; its result is
/// named [`unicode_whitespace`] and nothing more is claimed of it.
pub assume_specification[ char::is_whitespace ](c: char) -> (b: bool)
    ensures
        b == unicode_whitespace(c),
;

/// `char::is_alphanumeric` is a function of the character alone; its result
/// is named [`unicode_alphanumeric`] and nothing more is claimed of it.
pub assume_specification[ char::is_alphanumeric ](c: char) -> (b: bool)
    ensures
        b == unicode_alphanumeric(c),
;

/// Whether `c` is one of the 128 ASCII characters.
pub open spec fn ascii(c: char) -> bool {
    c <= '\x7f'
}

/// Whether `c` is one of the decimal digits `0` to `9`.
pub open spec fn spec_digit(c: char) -> bool {
    '0' <= c && c <= '9'
}

/// Whether `c` is one of the ASCII letters `a` to `z` and `A` to `Z`.
pub open spec fn ascii_letter(c: char) -> bool {
    ('a' <= c && c <= 'z') || ('A' <= c && c <= 'Z')
}

/// Whether `c` separates tokens. In ASCII these are the space and the
/// characters from tab to carriage return.
pub open spec fn spec_whitespace(c: char) -> bool {
    if ascii(c) {
        c == ' ' || ('\t' <= c && c <= '\r')
    } else {
        unicode_whitespace(c)
    }
}

/// Whether `c` is a letter or a number. In ASCII these are the letters and
/// the decimal digits.
pub open spec fn spec_alphanumeric(c: char) -> bool {
    if ascii(c) {
        ascii_letter(c) || spec_digit(c)
    } else {
        unicode_alphanumeric(c)
    }
}

/// Whether `c` may stand in an identifier or a keyword: a letter, a number or
/// an underscore.
pub open spec fn spec_word(c: char) -> bool {
    spec_alphanumeric(c) || c == '_'
}

/// Whether `c` is one of the decimal digits `0` to `9`.
#[verifier::when_used_as_spec(spec_digit)]
pub fn digit(c: char) -> (b: bool)
    ensures
        b == spec_digit(c),
{
    '0' <= c && c <= '9'
}

/// Whether `c` separates tokens.
#[verifier::when_used_as_spec(spec_whitespace)]
pub fn whitespace(c: char) -> (b: bool)
    ensures
        b == spec_whitespace(c),
{
    if c <= '\x7f' {
        c == ' ' || ('\t' <= c && c <= '\r')
    } else {
        c.is_whitespace()
    }
}

/// Whether `c` is a letter or a number.
#[verifier::when_used_as_spec(spec_alphanumeric)]
pub fn alphanumeric(c: char) -> (b: bool)
    ensures
        b == spec_alphanumeric(c),
{
    if c <= '\x7f' {
        ('a' <= c && c <= 'z') || ('A' <= c && c <= 'Z') || ('0' <= c && c <= '9')
    } else {
        c.is_alphanumeric()
    }
}

/// Whether `c` may stand in an identifier or a keyword.
#[verifier::when_used_as_spec(spec_word)]
pub fn word(c: char) -> (b: bool)
    ensures
        b == spec_word(c),
{
    c == '_' || alphanumeric(c)
}

} // verus!
