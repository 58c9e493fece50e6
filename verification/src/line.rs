//! The line recognizer: the spans in their fixed order, and the record that
//! they make.

use vstd::prelude::*;
use crate::classify::whitespace_char;
use crate::primitives::{optional, take_tag, StructuralMismatch};
use crate::recognizers::{
    take_annotation, take_branch_name, take_hex, take_whitespace, take_whitespace_or_star,
};
use crate::record::{GitHubBranchLine, GitHubBranchType, LineRecord};
use crate::spans::{
    gone, lemma_spans_partition_line, line_spans, opening, parsed_line, status_of,
};

verus! {

/// Equality of `str` in std compares two string slices byte for byte, which
/// is to compare them character for character.
pub assume_specification[ <str as PartialEq>::eq ](a: &str, b: &str) -> (r: bool)
    ensures
        r == (a@ == b@),
;

/// What an optional annotation holds, as a sequence of characters.
pub open spec fn annotation_view(annotation: Option<&str>) -> Option<Seq<char>> {
    match annotation {
        Some(text) => Some(text@),
        None => None,
    }
}

/// What the line recognizer's result holds, over sequences of characters.
pub open spec fn line_outcome(
    r: Result<(&str, GitHubBranchLine), StructuralMismatch>,
) -> Result<(Seq<char>, LineRecord), Seq<char>> {
    match r {
        Ok((rest, line)) => Ok((rest@, line@)),
        Err(e) => Err(e.expected@),
    }
}

/// The status that an annotation stands for: `Deleted` where it is exactly
/// `gone`, `Active` for any other text and where there is no annotation.
pub fn branch_type_of(annotation: Option<&str>) -> (t: GitHubBranchType)
    ensures
        t == status_of(annotation_view(annotation)),
        t == GitHubBranchType::Deleted <==> annotation_view(annotation) == Some(gone()),
{
    proof {
        reveal_strlit("gone");
        assert("gone"@ =~= gone());
    }
    match annotation {
        Some(text) => if *text == *"gone" {
            GitHubBranchType::Deleted
        } else {
            GitHubBranchType::Active
        },
        None => GitHubBranchType::Active,
    }
}

/// Recognizes one line of a branch listing. Consumes, in this order, the
/// leading whitespace and `*`, the branch name, whitespace, the hash,
/// whitespace, an annotation where `[` stands next, and whitespace; what is
/// left is the comment, which is also returned as the remainder. The hash is
/// read and dropped. Fails only where an annotation opens and does not
/// close, and then names `]` as missing.
pub fn git_line_parser<'a>(input: &'a str) -> (r: Result<
    (&'a str, GitHubBranchLine),
    StructuralMismatch<'a>,
>)
    ensures
        line_outcome(r) == parsed_line(input@),
        r matches Ok((remainder, line)) ==> remainder@ == line.comment@,
        r matches Ok((remainder, _)) ==> line_spans(input@) matches Ok(spans) && input@
            == spans.consumed() + remainder@,
        r matches Ok((_, line)) ==> forall|i: int|
            0 <= i < line.branch_name@.len() ==> !whitespace_char(#[trigger] line.branch_name@[i])
                && line.branch_name@[i] != '[' && line.branch_name@[i] != ']',
{
    proof {
        reveal_strlit("[");
        assert("["@ =~= opening());
        lemma_spans_partition_line(input@);
    }
    let (tail2, _) = take_whitespace_or_star(input)?;
    let (tail3, branch_n) = take_branch_name(tail2)?;
    let (tail4, _) = take_whitespace(tail3)?;
    let (tail5, _hex_value) = take_hex(tail4)?;
    let (tail6, _) = take_whitespace(tail5)?;
    let (_, bracket) = optional(tail6, take_tag("[", tail6));
    let (tail7, gone_op) = match bracket {
        Some(_) => {
            let (tail, annotation) = take_annotation(tail6)?;
            (tail, Some(annotation))
        },
        None => (tail6, None),
    };
    let (tail8, _) = optional(tail7, take_whitespace(tail7));
    let branch_type = branch_type_of(gone_op);
    let branch_name = branch_n.to_string();
    let comment = tail8.to_string();
    Ok((tail8, GitHubBranchLine { branch_name, branch_type, comment }))
}

} // verus!
