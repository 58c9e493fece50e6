//! What a parsed line is made of.

use vstd::prelude::*;

verus! {

/// The run of hexadecimal digits that stood for the revision, as text. It is
/// kept as it was read and never taken as a number.
#[derive(Debug, PartialEq, Eq)]
pub struct HexValue(pub String);

impl View for HexValue {
    type V = Seq<char>;

    open spec fn view(&self) -> Seq<char> {
        self.0@
    }
}

/// The status of a branch's upstream.
#[derive(Debug, PartialEq, Eq, Clone, Copy)]
pub enum GitHubBranchType {
    /// The upstream is there, or the line says nothing of it.
    Active,
    /// The upstream is gone.
    Deleted,
}

/// What a line yields, over sequences of characters.
pub struct LineRecord {
    /// The branch name, which may be empty.
    pub branch_name: Seq<char>,
    /// The status of the upstream.
    pub branch_type: GitHubBranchType,
    /// What the line holds behind its fields.
    pub comment: Seq<char>,
}

/// One line of a branch listing: the branch, the status of its upstream, and
/// the free text that ends the line.
#[derive(Debug, PartialEq, Eq)]
pub struct GitHubBranchLine {
    /// The branch name, which may be empty.
    pub branch_name: String,
    /// The status of the upstream.
    pub branch_type: GitHubBranchType,
    /// What the line holds behind its fields, as it stood there.
    pub comment: String,
}

impl View for GitHubBranchLine {
    type V = LineRecord;

    open spec fn view(&self) -> LineRecord {
        LineRecord {
            branch_name: self.branch_name@,
            branch_type: self.branch_type,
            comment: self.comment@,
        }
    }
}

} // verus!
