//! The composite recognizers: the spans of a line, each on its own.

use vstd::prelude::*;
use crate::classify::{
    is_alphabetic, is_annotation_char, is_branch_name_char, is_hex_digit, is_marker_char,
    is_whitespace, whitespace_char,
};
use crate::primitives::{outcome, take_run, take_tag, StructuralMismatch, Taken};
use crate::record::HexValue;
use crate::spans::{
    alphabetic_class, annotation_class, annotation_of, branch_name_class, closing, greedy_rest,
    greedy_run, hex_class, marker_class, opening, run_of, whitespace_class,
};

verus! {

/// Consumes the whitespace at the front of `input`. Never fails.
pub fn take_whitespace<'a>(input: &'a str) -> (r: Taken<'a>)
    ensures
        outcome(r) == run_of(whitespace_class(), input@),
{
    Ok(take_run(is_whitespace, input, Ghost(whitespace_class())))
}

/// Consumes the letters at the front of `input`. Never fails.
pub fn take_alphabetic<'a>(input: &'a str) -> (r: Taken<'a>)
    ensures
        outcome(r) == run_of(alphabetic_class(), input@),
{
    Ok(take_run(is_alphabetic, input, Ghost(alphabetic_class())))
}

/// Consumes the branch name at the front of `input`: letters, decimal digits,
/// `-`, `_` and `/`. Never fails; the name may be empty. It never holds
/// whitespace or a bracket.
pub fn take_branch_name<'a>(input: &'a str) -> (r: Taken<'a>)
    ensures
        outcome(r) == run_of(branch_name_class(), input@),
        r matches Ok((_, name)) ==> forall|i: int|
            0 <= i < name@.len() ==> !whitespace_char(#[trigger] name@[i]) && name@[i] != '['
                && name@[i] != ']',
{
    Ok(take_run(is_branch_name_char, input, Ghost(branch_name_class())))
}

/// Consumes a bracketed annotation at the front of `input` and yields what
/// stands between the brackets, which may be nothing. Fails where `input`
/// does not start with `[`, and where the annotation characters behind it are
/// not followed by `]`; the error names the bracket that is missing.
pub fn take_annotation<'a>(input: &'a str) -> (r: Taken<'a>)
    ensures
        outcome(r) == annotation_of(input@),
{
    proof {
        reveal_strlit("[");
        reveal_strlit("]");
        assert("["@ =~= opening());
        assert("]"@ =~= closing());
    }
    let (body, _) = take_tag("[", input)?;
    let (after, inner) = take_run(is_annotation_char, body, Ghost(annotation_class()));
    let (rest, _) = take_tag("]", after)?;
    Ok((rest, inner))
}

/// Consumes what leads a line: whitespace and `*`, in any order. Never fails.
pub fn take_whitespace_or_star<'a>(input: &'a str) -> (r: Taken<'a>)
    ensures
        outcome(r) == run_of(marker_class(), input@),
{
    Ok(take_run(is_marker_char, input, Ghost(marker_class())))
}

/// Consumes the hexadecimal digits at the front of `input` and yields them as
/// a `HexValue`. Never fails; the value may be empty.
pub fn take_hex<'a>(input: &'a str) -> (r: Result<(&'a str, HexValue), StructuralMismatch<'a>>)
    ensures
        r matches Ok((rest, hex)) && rest@ == greedy_rest(hex_class(), input@) && hex@
            == greedy_run(hex_class(), input@),
{
    let (rest, digits) = take_run(is_hex_digit, input, Ghost(hex_class()));
    Ok((rest, HexValue(digits.to_string())))
}

} // verus!
