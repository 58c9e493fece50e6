//! The grammar of a branch-listing line, over sequences of characters.
//!
//! A line is a marker run, a branch name, a gap, a hash, a gap, an optional
//! bracketed annotation, a gap, and the comment. Every span but the annotation
//! is a greedy run, so it may be empty; the annotation alone can fail.

use vstd::prelude::*;
use vstd::utf8::encode_utf8;
use crate::classify::{
    alphabetic_char, annotation_char, branch_name_char, hex_digit_char, marker_char,
    whitespace_char,
};
use crate::record::{GitHubBranchType, LineRecord};

verus! {

/// What a recognizer yields: the remainder and the matched text, or the
/// literal that the input lacked.
pub type Recognized = Result<(Seq<char>, Seq<char>), Seq<char>>;

/// The class of the whitespace characters.
pub open spec fn whitespace_class() -> spec_fn(char) -> bool {
    |c: char| whitespace_char(c)
}

/// The class of the alphabetic characters.
pub open spec fn alphabetic_class() -> spec_fn(char) -> bool {
    |c: char| alphabetic_char(c)
}

/// The class of the characters that a branch name is made of.
pub open spec fn branch_name_class() -> spec_fn(char) -> bool {
    |c: char| branch_name_char(c)
}

/// The class of the characters that may lead a line.
pub open spec fn marker_class() -> spec_fn(char) -> bool {
    |c: char| marker_char(c)
}

/// The class of the hexadecimal digits.
pub open spec fn hex_class() -> spec_fn(char) -> bool {
    |c: char| hex_digit_char(c)
}

/// The class of the characters that may stand between the brackets.
pub open spec fn annotation_class() -> spec_fn(char) -> bool {
    |c: char| annotation_char(c)
}

/// The literal that opens an annotation.
pub open spec fn opening() -> Seq<char> {
    seq!['[']
}

/// The literal that closes an annotation.
pub open spec fn closing() -> Seq<char> {
    seq![']']
}

/// The annotation that marks a deleted upstream.
pub open spec fn gone() -> Seq<char> {
    seq!['g', 'o', 'n', 'e']
}

/// The number of characters at the front of `s` that are all in `class`.
pub open spec fn run_len(class: spec_fn(char) -> bool, s: Seq<char>) -> nat
    decreases s.len(),
{
    if s.len() > 0 && class(s[0]) {
        1 + run_len(class, s.drop_first())
    } else {
        0
    }
}

/// The longest prefix of `s` whose characters are all in `class`.
pub open spec fn greedy_run(class: spec_fn(char) -> bool, s: Seq<char>) -> Seq<char> {
    s.take(run_len(class, s) as int)
}

/// What is left of `s` behind its greedy run.
pub open spec fn greedy_rest(class: spec_fn(char) -> bool, s: Seq<char>) -> Seq<char> {
    s.skip(run_len(class, s) as int)
}

/// Whether `run` and `rest` cut `s` in two where the characters of `class` end.
pub open spec fn is_greedy_split(
    class: spec_fn(char) -> bool,
    s: Seq<char>,
    run: Seq<char>,
    rest: Seq<char>,
) -> bool {
    &&& s == run + rest
    &&& forall|i: int| 0 <= i < run.len() ==> class(#[trigger] run[i])
    &&& rest.len() > 0 ==> !class(rest[0])
}

/// The literal match: `prefix` is consumed where `s` starts with it, and is
/// reported as missing where it does not.
pub open spec fn literal_of(prefix: Seq<char>, s: Seq<char>) -> Recognized {
    if prefix.is_prefix_of(s) {
        Ok((s.skip(prefix.len() as int), prefix))
    } else {
        Err(prefix)
    }
}

/// The greedy run as a recognizer: it never fails.
pub open spec fn run_of(class: spec_fn(char) -> bool, s: Seq<char>) -> Recognized {
    Ok((greedy_rest(class, s), greedy_run(class, s)))
}

/// The delimited span: the literal `open`, a greedy run of `class`, the
/// literal `close`. The run between the two is what it yields.
pub open spec fn delimited_of(
    open: Seq<char>,
    class: spec_fn(char) -> bool,
    close: Seq<char>,
    s: Seq<char>,
) -> Recognized {
    match literal_of(open, s) {
        Err(missing) => Err(missing),
        Ok((body, _)) => match literal_of(close, greedy_rest(class, body)) {
            Err(missing) => Err(missing),
            Ok((rest, _)) => Ok((rest, greedy_run(class, body))),
        },
    }
}

/// The annotation: `[`, a run of annotation characters, `]`.
pub open spec fn annotation_of(s: Seq<char>) -> Recognized {
    delimited_of(opening(), annotation_class(), closing(), s)
}

/// The optional wrapper: a failed attempt consumes nothing of `s`.
pub open spec fn optional_of(s: Seq<char>, attempt: Recognized) -> (Seq<char>, Option<Seq<char>>) {
    match attempt {
        Ok((rest, matched)) => (rest, Some(matched)),
        Err(_) => (s, None),
    }
}

/// `Deleted` for the annotation `gone`, and `Active` for any other, or none.
pub open spec fn status_of(annotation: Option<Seq<char>>) -> GitHubBranchType {
    if annotation == Some(gone()) {
        GitHubBranchType::Deleted
    } else {
        GitHubBranchType::Active
    }
}

/// The spans of a line, in the order in which they stand in it.
pub struct LineSpans {
    /// Leading whitespace and `*`.
    pub marker: Seq<char>,
    /// The branch name.
    pub name: Seq<char>,
    /// The whitespace behind the name.
    pub name_gap: Seq<char>,
    /// The hexadecimal digits of the revision.
    pub hash: Seq<char>,
    /// The whitespace behind the hash.
    pub hash_gap: Seq<char>,
    /// What stands between the brackets, where the line has an annotation.
    pub annotation: Option<Seq<char>>,
    /// The whitespace behind the annotation.
    pub annotation_gap: Seq<char>,
    /// All that follows.
    pub comment: Seq<char>,
}

impl LineSpans {
    /// The annotation as it stands in the line, brackets included.
    pub open spec fn bracketed(self) -> Seq<char> {
        match self.annotation {
            Some(inner) => opening() + inner + closing(),
            None => Seq::empty(),
        }
    }

    /// Everything in front of the comment.
    pub open spec fn consumed(self) -> Seq<char> {
        self.marker + self.name + self.name_gap + self.hash + self.hash_gap + self.bracketed()
            + self.annotation_gap
    }

    /// All spans, joined in order.
    pub open spec fn joined(self) -> Seq<char> {
        self.consumed() + self.comment
    }
}

/// The spans of `line`, or the literal that it lacks. An annotation is
/// expected exactly where `[` follows the gap behind the hash; a line fails
/// only when such an annotation does not close.
pub open spec fn line_spans(line: Seq<char>) -> Result<LineSpans, Seq<char>> {
    let marker = greedy_run(marker_class(), line);
    let at_name = greedy_rest(marker_class(), line);
    let name = greedy_run(branch_name_class(), at_name);
    let at_name_gap = greedy_rest(branch_name_class(), at_name);
    let name_gap = greedy_run(whitespace_class(), at_name_gap);
    let at_hash = greedy_rest(whitespace_class(), at_name_gap);
    let hash = greedy_run(hex_class(), at_hash);
    let at_hash_gap = greedy_rest(hex_class(), at_hash);
    let hash_gap = greedy_run(whitespace_class(), at_hash_gap);
    let at_annotation = greedy_rest(whitespace_class(), at_hash_gap);
    if literal_of(opening(), at_annotation) is Ok {
        match annotation_of(at_annotation) {
            Err(missing) => Err(missing),
            Ok((at_gap, inner)) => Ok(
                LineSpans {
                    marker,
                    name,
                    name_gap,
                    hash,
                    hash_gap,
                    annotation: Some(inner),
                    annotation_gap: greedy_run(whitespace_class(), at_gap),
                    comment: greedy_rest(whitespace_class(), at_gap),
                },
            ),
        }
    } else {
        Ok(
            LineSpans {
                marker,
                name,
                name_gap,
                hash,
                hash_gap,
                annotation: None,
                annotation_gap: greedy_run(whitespace_class(), at_annotation),
                comment: greedy_rest(whitespace_class(), at_annotation),
            },
        )
    }
}

/// The record that the spans of a line make.
pub open spec fn record_of(spans: LineSpans) -> LineRecord {
    LineRecord {
        branch_name: spans.name,
        branch_type: status_of(spans.annotation),
        comment: spans.comment,
    }
}

/// The remainder and the record of `line`, or the literal that it lacks.
pub open spec fn parsed_line(line: Seq<char>) -> Result<(Seq<char>, LineRecord), Seq<char>> {
    match line_spans(line) {
        Ok(spans) => Ok((spans.comment, record_of(spans))),
        Err(missing) => Err(missing),
    }
}

/// A greedy run stops inside `s`, holds characters of `class` only, and stops
/// in front of a character that is not in `class`, or at the end.
pub proof fn lemma_run_len_greedy(class: spec_fn(char) -> bool, s: Seq<char>)
    ensures
        run_len(class, s) <= s.len(),
        forall|i: int| 0 <= i < run_len(class, s) ==> class(#[trigger] s[i]),
        run_len(class, s) < s.len() ==> !class(s[run_len(class, s) as int]),
    decreases s.len(),
{
    if s.len() > 0 && class(s[0]) {
        let tail = s.drop_first();
        lemma_run_len_greedy(class, tail);
        assert forall|i: int| 0 <= i < run_len(class, s) implies class(#[trigger] s[i]) by {
            if i > 0 {
                assert(s[i] == tail[i - 1]);
            }
        }
        if run_len(class, s) < s.len() {
            assert(s[run_len(class, s) as int] == tail[run_len(class, tail) as int]);
        }
    }
}

/// The greedy run and what is left behind it cut the input where the
/// characters of the class end.
pub proof fn lemma_greedy_split(class: spec_fn(char) -> bool, s: Seq<char>)
    ensures
        is_greedy_split(class, s, greedy_run(class, s), greedy_rest(class, s)),
{
    lemma_run_len_greedy(class, s);
    assert(s =~= greedy_run(class, s) + greedy_rest(class, s));
}

/// There is one greedy split only: whatever cuts the input where the
/// characters of the class end is the greedy run and its rest.
pub proof fn lemma_greedy_split_unique(
    class: spec_fn(char) -> bool,
    s: Seq<char>,
    run: Seq<char>,
    rest: Seq<char>,
)
    requires
        is_greedy_split(class, s, run, rest),
    ensures
        run == greedy_run(class, s),
        rest == greedy_rest(class, s),
    decreases run.len(),
{
    if run.len() == 0 {
        assert(s =~= rest);
        assert(run =~= greedy_run(class, s));
        assert(rest =~= greedy_rest(class, s));
    } else {
        assert(s[0] == run[0]);
        let tail = s.drop_first();
        let run_tail = run.drop_first();
        assert(tail =~= run_tail + rest);
        assert forall|i: int| 0 <= i < run_tail.len() implies class(#[trigger] run_tail[i]) by {
            assert(run_tail[i] == run[i + 1]);
        }
        lemma_greedy_split_unique(class, tail, run_tail, rest);
        lemma_run_len_greedy(class, tail);
        assert(run =~= greedy_run(class, s));
        assert(rest =~= greedy_rest(class, s));
    }
}

/// A greedy run is the longest of its kind: no longer prefix of the input is
/// made of characters of the class alone.
pub proof fn lemma_greedy_run_longest(class: spec_fn(char) -> bool, s: Seq<char>, n: int)
    requires
        0 <= n <= s.len(),
        forall|i: int| 0 <= i < n ==> class(#[trigger] s[i]),
    ensures
        n <= greedy_run(class, s).len(),
{
    lemma_run_len_greedy(class, s);
}

/// What follows a greedy run holds no further run of the same class.
pub proof fn lemma_greedy_rest_has_no_run(class: spec_fn(char) -> bool, s: Seq<char>)
    ensures
        greedy_run(class, greedy_rest(class, s)) == Seq::<char>::empty(),
        greedy_rest(class, greedy_rest(class, s)) == greedy_rest(class, s),
{
    lemma_greedy_split(class, s);
    let rest = greedy_rest(class, s);
    assert(rest =~= Seq::<char>::empty() + rest);
    assert(is_greedy_split(class, rest, Seq::<char>::empty(), rest));
    lemma_greedy_split_unique(class, rest, Seq::<char>::empty(), rest);
}

/// The spans of a line are the line: joined in order, marker, name, gap, hash,
/// gap, annotation with its brackets, gap and comment give back the input,
/// with no character gained, lost or moved.
pub proof fn lemma_spans_partition_line(line: Seq<char>)
    ensures
        line_spans(line) matches Ok(spans) ==> spans.joined() == line,
{
    if let Ok(spans) = line_spans(line) {
        let at_name = greedy_rest(marker_class(), line);
        let at_name_gap = greedy_rest(branch_name_class(), at_name);
        let at_hash = greedy_rest(whitespace_class(), at_name_gap);
        let at_hash_gap = greedy_rest(hex_class(), at_hash);
        let at_annotation = greedy_rest(whitespace_class(), at_hash_gap);
        lemma_greedy_split(marker_class(), line);
        lemma_greedy_split(branch_name_class(), at_name);
        lemma_greedy_split(whitespace_class(), at_name_gap);
        lemma_greedy_split(hex_class(), at_hash);
        lemma_greedy_split(whitespace_class(), at_hash_gap);
        let head = spans.marker + spans.name + spans.name_gap + spans.hash + spans.hash_gap;
        assert(line =~= head + at_annotation);
        if spans.annotation is Some {
            let body = at_annotation.skip(1);
            let after = greedy_rest(annotation_class(), body);
            let at_gap = after.skip(1);
            lemma_greedy_split(annotation_class(), body);
            lemma_greedy_split(whitespace_class(), at_gap);
            assert(at_annotation =~= opening() + body);
            assert(after =~= closing() + at_gap);
            assert(at_annotation =~= spans.bracketed() + spans.annotation_gap + spans.comment);
            assert(spans.joined() =~= head + (spans.bracketed() + spans.annotation_gap
                + spans.comment));
        } else {
            lemma_greedy_split(whitespace_class(), at_annotation);
            assert(spans.bracketed() =~= Seq::<char>::empty());
            assert(spans.joined() =~= head + (spans.annotation_gap + spans.comment));
        }
    }
}

/// Each span is made of its own class of characters, and the comment does
/// not start with whitespace.
pub proof fn lemma_spans_are_of_their_class(line: Seq<char>)
    ensures
        line_spans(line) matches Ok(spans) ==> {
            &&& forall|i: int| 0 <= i < spans.marker.len() ==> marker_char(#[trigger] spans.marker[i])
            &&& forall|i: int|
                0 <= i < spans.name.len() ==> branch_name_char(#[trigger] spans.name[i])
            &&& forall|i: int|
                0 <= i < spans.name_gap.len() ==> whitespace_char(#[trigger] spans.name_gap[i])
            &&& forall|i: int| 0 <= i < spans.hash.len() ==> hex_digit_char(#[trigger] spans.hash[i])
            &&& forall|i: int|
                0 <= i < spans.hash_gap.len() ==> whitespace_char(#[trigger] spans.hash_gap[i])
            &&& spans.annotation matches Some(inner) ==> forall|i: int|
                0 <= i < inner.len() ==> annotation_char(#[trigger] inner[i])
            &&& forall|i: int|
                0 <= i < spans.annotation_gap.len() ==> whitespace_char(
                    #[trigger] spans.annotation_gap[i],
                )
            &&& spans.comment.len() > 0 ==> !whitespace_char(spans.comment[0])
        },
{
    if let Ok(spans) = line_spans(line) {
        let at_name = greedy_rest(marker_class(), line);
        let at_name_gap = greedy_rest(branch_name_class(), at_name);
        let at_hash = greedy_rest(whitespace_class(), at_name_gap);
        let at_hash_gap = greedy_rest(hex_class(), at_hash);
        let at_annotation = greedy_rest(whitespace_class(), at_hash_gap);
        lemma_greedy_split(marker_class(), line);
        lemma_greedy_split(branch_name_class(), at_name);
        lemma_greedy_split(whitespace_class(), at_name_gap);
        lemma_greedy_split(hex_class(), at_hash);
        lemma_greedy_split(whitespace_class(), at_hash_gap);
        if spans.annotation is Some {
            let body = at_annotation.skip(1);
            let at_gap = greedy_rest(annotation_class(), body).skip(1);
            lemma_greedy_split(annotation_class(), body);
            lemma_greedy_split(whitespace_class(), at_gap);
        } else {
            lemma_greedy_split(whitespace_class(), at_annotation);
        }
    }
}

/// What leads a line has no part in what the line yields: with more
/// whitespace or `*` in front, a line gives the same remainder and record, or
/// fails alike.
pub proof fn lemma_marker_is_ignored(lead: Seq<char>, line: Seq<char>)
    requires
        forall|i: int| 0 <= i < lead.len() ==> marker_char(#[trigger] lead[i]),
    ensures
        parsed_line(lead + line) == parsed_line(line),
{
    let run = greedy_run(marker_class(), line);
    let rest = greedy_rest(marker_class(), line);
    lemma_greedy_split(marker_class(), line);
    assert(lead + line =~= (lead + run) + rest);
    assert forall|i: int| 0 <= i < (lead + run).len() implies marker_class()(
        #[trigger] (lead + run)[i],
    ) by {
        if i >= lead.len() {
            assert((lead + run)[i] == run[i - lead.len()]);
        }
    }
    lemma_greedy_split_unique(marker_class(), lead + line, lead + run, rest);
}

/// The UTF-8 encoding of a sequence is the encodings of its parts, one behind
/// the other.
pub proof fn lemma_encode_utf8_concat(a: Seq<char>, b: Seq<char>)
    ensures
        encode_utf8(a + b) == encode_utf8(a) + encode_utf8(b),
    decreases a.len(),
{
    if a.len() == 0 {
        assert(a + b =~= b);
        assert(encode_utf8(a) + encode_utf8(b) =~= encode_utf8(b));
    } else {
        lemma_encode_utf8_concat(a.drop_first(), b);
        assert((a + b).drop_first() =~= a.drop_first() + b);
        assert((a + b)[0] == a[0]);
        assert(encode_utf8(a + b) =~= encode_utf8(a) + encode_utf8(b));
    }
}

/// The comment is the end of the line, character for character and byte for
/// byte: it starts where the consumed spans end, and the line's UTF-8 bytes
/// are those of the consumed spans followed by those of the comment.
pub proof fn lemma_comment_is_line_suffix(line: Seq<char>)
    ensures
        line_spans(line) matches Ok(spans) ==> {
            &&& spans.consumed().len() <= line.len()
            &&& spans.comment == line.skip(spans.consumed().len() as int)
            &&& encode_utf8(line) == encode_utf8(spans.consumed()) + encode_utf8(spans.comment)
        },
{
    if let Ok(spans) = line_spans(line) {
        lemma_spans_partition_line(line);
        lemma_encode_utf8_concat(spans.consumed(), spans.comment);
        assert(spans.comment =~= line.skip(spans.consumed().len() as int));
    }
}

/// A line without an annotation has no gap behind one: its comment starts
/// right behind the gap that follows the hash.
pub proof fn lemma_no_annotation_no_gap(line: Seq<char>)
    ensures
        line_spans(line) matches Ok(spans) ==> (spans.annotation is None
            ==> spans.annotation_gap == Seq::<char>::empty()),
{
    let at_name = greedy_rest(marker_class(), line);
    let at_name_gap = greedy_rest(branch_name_class(), at_name);
    let at_hash = greedy_rest(whitespace_class(), at_name_gap);
    let at_hash_gap = greedy_rest(hex_class(), at_hash);
    lemma_greedy_rest_has_no_run(whitespace_class(), at_hash_gap);
}

/// A line fails for one reason only: behind the hash and its gap stands `[`,
/// and the run of annotation characters behind it is not followed by `]`.
pub proof fn lemma_line_fails_on_open_annotation_only(line: Seq<char>)
    ensures
        line_spans(line) matches Err(missing) ==> missing == closing(),
        line_spans(line) is Err ==> line.contains('['),
{
    if line_spans(line) is Err {
        let at_name = greedy_rest(marker_class(), line);
        let at_name_gap = greedy_rest(branch_name_class(), at_name);
        let at_hash = greedy_rest(whitespace_class(), at_name_gap);
        let at_hash_gap = greedy_rest(hex_class(), at_hash);
        let at_annotation = greedy_rest(whitespace_class(), at_hash_gap);
        lemma_run_len_greedy(marker_class(), line);
        lemma_run_len_greedy(branch_name_class(), at_name);
        lemma_run_len_greedy(whitespace_class(), at_name_gap);
        lemma_run_len_greedy(hex_class(), at_hash);
        lemma_run_len_greedy(whitespace_class(), at_hash_gap);
        assert(opening().is_prefix_of(at_annotation));
        assert(at_annotation.subrange(0, 1)[0] == opening()[0]);
        assert(at_annotation[0] == '[');
        let k = line.len() - at_annotation.len();
        assert(line[k] == at_annotation[0]);
    }
}

/// The status is `Deleted` for the annotation `gone` and for nothing else.
pub proof fn lemma_deleted_iff_gone(annotation: Option<Seq<char>>)
    ensures
        status_of(annotation) == GitHubBranchType::Deleted <==> annotation == Some(gone()),
        status_of(annotation) == GitHubBranchType::Active <==> annotation != Some(gone()),
{
}

} // verus!
