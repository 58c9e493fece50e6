//! Recognizers for one line of a branch listing: the branch name, the revision
//! hash, the optional bracketed upstream annotation and the trailing comment.
//!
//! `classify` holds the character classes, `spans` the grammar over sequences
//! of characters together with what is proved of it, `primitives` and
//! `recognizers` the recognizers over `&str`, and `line` the line recognizer.

pub mod classify;
pub mod line;
pub mod primitives;
pub mod recognizers;
pub mod record;
pub mod spans;

pub use classify::{
    is_allowed_punctuation, is_alphabetic, is_annotation_char, is_branch_name_char, is_digit,
    is_hex_digit, is_marker_char, is_whitespace,
};
pub use line::{branch_type_of, git_line_parser};
pub use primitives::{optional, take_tag, StructuralMismatch};
pub use recognizers::{
    take_alphabetic, take_annotation, take_branch_name, take_hex, take_whitespace,
    take_whitespace_or_star,
};
pub use record::{GitHubBranchLine, GitHubBranchType, HexValue};
