//! Character classes of the branch-listing grammar.
//!
//! Each class is a total predicate over `char`. The executable predicates
//! return exactly what the `*_char` functions of the same name say.

use vstd::prelude::*;

verus! {

/// Whether a character beyond ASCII carries the Unicode `Alphabetic` property.
pub uninterp spec fn unicode_alphabetic(c: char) -> bool;

/// Whether a character beyond ASCII carries the Unicode `White_Space` property.
pub uninterp spec fn unicode_white_space(c: char) -> bool;

/// Whether `c` lies in the ASCII range.
pub open spec fn ascii_char(c: char) -> bool {
    c <= '\x7f'
}

/// The ASCII letters `a-z` and `A-Z`.
pub open spec fn ascii_letter(c: char) -> bool {
    ('a' <= c && c <= 'z') || ('A' <= c && c <= 'Z')
}

/// The ASCII whitespace of Unicode: U+0009 through U+000D, and the space.
pub open spec fn ascii_space(c: char) -> bool {
    ('\x09' <= c && c <= '\x0d') || c == ' '
}

/// The alphabetic characters: the ASCII letters, and beyond ASCII whatever
/// Unicode calls `Alphabetic`.
pub open spec fn alphabetic_char(c: char) -> bool {
    if ascii_char(c) {
        ascii_letter(c)
    } else {
        unicode_alphabetic(c)
    }
}

/// The whitespace characters: the ASCII whitespace, and beyond ASCII whatever
/// Unicode calls `White_Space`.
pub open spec fn whitespace_char(c: char) -> bool {
    if ascii_char(c) {
        ascii_space(c)
    } else {
        unicode_white_space(c)
    }
}

/// The value of `c` as a digit: `0-9` count 0 to 9, and the letters `a-z`, in
/// either case, count 10 to 35. No other character is a digit.
pub open spec fn digit_value(c: char) -> Option<nat> {
    if '0' <= c && c <= '9' {
        Some((c as nat - '0' as nat) as nat)
    } else if 'a' <= c && c <= 'z' {
        Some((c as nat - 'a' as nat + 10) as nat)
    } else if 'A' <= c && c <= 'Z' {
        Some((c as nat - 'A' as nat + 10) as nat)
    } else {
        None
    }
}

/// Whether `c` is a digit in base `radix`.
pub open spec fn digit_in_radix(c: char, radix: nat) -> bool {
    match digit_value(c) {
        Some(v) => v < radix,
        None => false,
    }
}

/// The decimal digits `0-9`.
pub open spec fn decimal_digit_char(c: char) -> bool {
    '0' <= c && c <= '9'
}

/// The hexadecimal digits `0-9`, `a-f` and `A-F`.
pub open spec fn hex_digit_char(c: char) -> bool {
    ('0' <= c && c <= '9') || ('a' <= c && c <= 'f') || ('A' <= c && c <= 'F')
}

/// The punctuation that a branch name may hold: `-`, `_` and `/`.
pub open spec fn allowed_punctuation_char(c: char) -> bool {
    c == '-' || c == '_' || c == '/'
}

/// What a branch name is made of: letters, the allowed punctuation, decimal digits.
pub open spec fn branch_name_char(c: char) -> bool {
    alphabetic_char(c) || allowed_punctuation_char(c) || decimal_digit_char(c)
}

/// What may stand between the brackets of an annotation: whatever a branch
/// name is made of, and whitespace.
pub open spec fn annotation_char(c: char) -> bool {
    alphabetic_char(c) || allowed_punctuation_char(c) || decimal_digit_char(c) || whitespace_char(
        c,
    )
}

/// What may lead a line: whitespace and the `*` that marks the current branch.
pub open spec fn marker_char(c: char) -> bool {
    whitespace_char(c) || c == '*'
}

/// `char::is_alphabetic` of std reports the Unicode `Alphabetic` property. The
/// three clauses are facts of the Unicode Character Database, to which std's
/// documentation defers: among the ASCII characters exactly the letters are
/// alphabetic, beyond ASCII the property is left unnamed here, and no
/// character is both alphabetic and whitespace.
pub assume_specification[ std::primitive::char::is_alphabetic ](c: char) -> (b: bool)
    ensures
        ascii_char(c) ==> b == ascii_letter(c),
        !ascii_char(c) ==> b == unicode_alphabetic(c),
        b ==> !whitespace_char(c),
;

/// `char::is_whitespace` of std reports the Unicode `White_Space` property. Of
/// the ASCII characters the Unicode Character Database gives it to U+0009
/// through U+000D and to the space; beyond ASCII the property is left unnamed
/// here.
pub assume_specification[ std::primitive::char::is_whitespace ](c: char) -> (b: bool)
    ensures
        ascii_char(c) ==> b == ascii_space(c),
        !ascii_char(c) ==> b == unicode_white_space(c),
;

/// `char::is_digit` of std tells whether a character is a digit in the given
/// radix, where only `0-9`, `a-z` and `A-Z` are digits. It panics on a radix
/// outside 2 to 36.
pub assume_specification[ std::primitive::char::is_digit ](c: char, radix: u32) -> (b: bool)
    requires
        2 <= radix <= 36,
    ensures
        b == digit_in_radix(c, radix as nat),
;

/// Whether `c` is alphabetic. An alphabetic character is never whitespace.
pub fn is_alphabetic(c: char) -> (b: bool)
    ensures
        b == alphabetic_char(c),
        b ==> !whitespace_char(c),
{
    c.is_alphabetic()
}

/// Whether `c` is whitespace.
pub fn is_whitespace(c: char) -> (b: bool)
    ensures
        b == whitespace_char(c),
{
    c.is_whitespace()
}

/// Whether `c` is a hexadecimal digit, in either case.
pub fn is_hex_digit(c: char) -> (b: bool)
    ensures
        b == hex_digit_char(c),
{
    c.is_digit(16)
}

/// Whether `c` is one of `-`, `_` and `/`.
pub fn is_allowed_punctuation(c: char) -> (b: bool)
    ensures
        b == allowed_punctuation_char(c),
{
    c == '-' || c == '_' || c == '/'
}

/// Whether `c` is a decimal digit.
pub fn is_digit(c: char) -> (b: bool)
    ensures
        b == decimal_digit_char(c),
{
    c.is_digit(10)
}

/// Whether `c` may stand in a branch name. Such a character is never
/// whitespace and never a bracket.
pub fn is_branch_name_char(c: char) -> (b: bool)
    ensures
        b == branch_name_char(c),
        b ==> !whitespace_char(c) && c != '[' && c != ']',
{
    is_alphabetic(c) || is_allowed_punctuation(c) || is_digit(c)
}

/// Whether `c` may stand between the brackets of an annotation. Such a
/// character is never a bracket.
pub fn is_annotation_char(c: char) -> (b: bool)
    ensures
        b == annotation_char(c),
        b ==> c != '[' && c != ']',
{
    is_alphabetic(c) || is_allowed_punctuation(c) || is_digit(c) || is_whitespace(c)
}

/// Whether `c` may lead a line: whitespace, or the `*` of the current branch.
pub fn is_marker_char(c: char) -> (b: bool)
    ensures
        b == marker_char(c),
{
    is_whitespace(c) || c == '*'
}

} // verus!
