//! Primitive recognizers over `&str`: a literal prefix, a greedy run of one
//! character class, and the optional wrapper. The scanning itself is nom's.

use vstd::prelude::*;
use nom::bytes::complete::{tag, take_while};
use crate::spans::{
    greedy_rest, greedy_run, lemma_greedy_split_unique, literal_of, optional_of, Recognized,
};

verus! {

/// The outcome type of nom's parsers: incomplete input, a recoverable error, or
/// a failure. Nothing here looks inside it.
#[verifier::external_type_specification]
#[verifier::external_body]
#[verifier::reject_recursive_types(E)]
pub struct ExNomErr<E>(nom::Err<E>);

/// The default error of nom's parsers, which holds the place and the kind of
/// an error. Nothing here looks inside it.
#[verifier::external_type_specification]
#[verifier::external_body]
#[verifier::reject_recursive_types(I)]
pub struct ExNomError<I>(nom::error::Error<I>);

/// A structural mismatch: a required literal that the input did not hold
/// where it was expected.
#[derive(Debug, Clone, Copy)]
pub struct StructuralMismatch<'a> {
    /// The literal that was expected.
    pub expected: &'a str,
}

/// What a recognizer returns: the remainder and the matched text, in this
/// order, or the mismatch that stopped it.
pub type Taken<'a> = Result<(&'a str, &'a str), StructuralMismatch<'a>>;

/// What a recognizer's result holds, as sequences of characters.
pub open spec fn outcome(r: Taken) -> Recognized {
    match r {
        Ok((rest, matched)) => Ok((rest@, matched@)),
        Err(e) => Err(e.expected@),
    }
}

/// What the optional wrapper's result holds, as sequences of characters.
pub open spec fn optional_outcome(r: (&str, Option<&str>)) -> (Seq<char>, Option<Seq<char>>) {
    (
        r.0@,
        match r.1 {
            Some(matched) => Some(matched@),
            None => None,
        },
    )
}

/// `nom::bytes::complete::tag` on `&str`. It compares the bytes of the input
/// with those of the pattern. Where the input starts with the pattern it
/// splits the input behind it and returns the remainder and the matched
/// prefix; in every other case it returns an error.
#[verifier::external_body]
fn nom_tag<'a>(prefix: &str, input: &'a str) -> (r: nom::IResult<&'a str, &'a str>)
    ensures
        r is Ok <==> prefix@.is_prefix_of(input@),
        r matches Ok((rest, matched)) ==> matched@ == prefix@ && rest@ == input@.skip(
            prefix@.len() as int,
        ),
{
    tag(prefix)(input)
}

/// `nom::bytes::complete::take_while` on `&str`. It asks `cond` of each
/// character in turn, splits the input in front of the first one that `cond`
/// turns down, or at the end, and returns the remainder and the run in front
/// of it. It returns no error.
#[verifier::external_body]
fn nom_take_while<'a, F>(cond: F, input: &'a str) -> (r: nom::IResult<&'a str, &'a str>) where
    F: Fn(char) -> bool,

    requires
        forall|c: char| cond.requires((c,)),
    ensures
        r is Ok,
        r matches Ok((rest, run)) ==> input@ == run@ + rest@,
        r matches Ok((rest, run)) ==> forall|i: int|
            0 <= i < run@.len() ==> cond.ensures((#[trigger] run@[i],), true),
        r matches Ok((rest, run)) ==> rest@.len() > 0 ==> cond.ensures((rest@[0],), false),
{
    take_while(cond)(input)
}

/// The literal match. Where `input` starts with `prefix`, consumes exactly
/// that prefix; where it does not, consumes nothing and reports `prefix` as
/// the literal that is missing.
pub fn take_tag<'a>(prefix: &'a str, input: &'a str) -> (r: Taken<'a>)
    ensures
        outcome(r) == literal_of(prefix@, input@),
{
    match nom_tag(prefix, input) {
        Ok(pair) => Ok(pair),
        Err(_) => Err(StructuralMismatch { expected: prefix }),
    }
}

/// The greedy run. Consumes the longest prefix of `input` whose characters
/// `cond` accepts, where `cond` decides the class `class`. Returns the
/// remainder and the run; the run may be empty.
pub(crate) fn take_run<'a, F>(
    cond: F,
    input: &'a str,
    Ghost(class): Ghost<spec_fn(char) -> bool>,
) -> (r: (&'a str, &'a str)) where
    F: Fn(char) -> bool,

    requires
        forall|c: char| cond.requires((c,)),
        forall|c: char, b: bool| cond.ensures((c,), b) ==> b == class(c),
    ensures
        r.0@ == greedy_rest(class, input@),
        r.1@ == greedy_run(class, input@),
        forall|i: int| 0 <= i < r.1@.len() ==> cond.ensures((#[trigger] r.1@[i],), true),
{
    match nom_take_while(cond, input) {
        Ok((rest, run)) => {
            proof {
                lemma_greedy_split_unique(class, input@, run@, rest@);
            }
            (rest, run)
        },
        Err(_) => vstd::pervasive::unreached(),
    }
}

/// The optional wrapper. Hands on what a successful attempt consumed and
/// matched; after a failed attempt, hands back `input` untouched and nothing
/// matched.
pub fn optional<'a>(input: &'a str, attempt: Taken<'a>) -> (r: (&'a str, Option<&'a str>))
    ensures
        attempt matches Ok((rest, matched)) ==> r == (rest, Some(matched)),
        attempt is Err ==> r == (input, None::<&str>),
        optional_outcome(r) == optional_of(input@, outcome(attempt)),
{
    match attempt {
        Ok((rest, matched)) => (rest, Some(matched)),
        Err(_) => (input, None),
    }
}

} // verus!
