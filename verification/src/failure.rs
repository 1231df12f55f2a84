//! How a statement against the store can fail, and how a driver's error text
//! is sorted into those kinds.

use crate::text::{contains, contains_text};
use vstd::prelude::*;
use vstd::string::StringExecFns;

verus! {

/// The kinds of failure that the operations tell apart.
#[derive(Clone, Copy, Debug, PartialEq, Eq, Structural)]
pub enum FailureKind {
    /// No row has the key that was asked for.
    RowNotFound,
    /// A key or a name is already taken.
    UniqueViolation,
    /// Another player is the owner already.
    OwnerViolation,
    /// A row refers to one that is missing, or is still referred to.
    ForeignKeyViolation,
    /// Anything else.
    Other,
}

/// A failed statement: its kind and the store's diagnostic text.
#[derive(Debug, PartialEq, Eq)]
pub struct StoreFailure {
    pub kind: FailureKind,
    pub detail: String,
}

/// What a [`StoreFailure`] holds, with the text as a sequence of characters.
pub struct FailureView {
    pub kind: FailureKind,
    pub detail: Seq<char>,
}

impl View for StoreFailure {
    type V = FailureView;

    open spec fn view(&self) -> FailureView {
        FailureView { kind: self.kind, detail: self.detail@ }
    }
}

/// The text that marks a violated uniqueness constraint.
pub open spec fn duplicate_marker() -> Seq<char> {
    "duplicate key value"@
}

/// The name of the constraint that allows one owner only.
pub open spec fn owner_marker() -> Seq<char> {
    "uniq_single_owner"@
}

/// The kind that a driver's error text stands for: a uniqueness violation
/// where it holds the duplicate marker, that of the single owner where it
/// also names that constraint, and anything else otherwise.
pub open spec fn classified(text: Seq<char>) -> FailureKind {
    if contains_text(text, duplicate_marker()) {
        if contains_text(text, owner_marker()) {
            FailureKind::OwnerViolation
        } else {
            FailureKind::UniqueViolation
        }
    } else {
        FailureKind::Other
    }
}

/// The diagnostic text of a failure that the tables themselves raise.
pub open spec fn diagnostic(kind: FailureKind) -> Seq<char> {
    match kind {
        FailureKind::RowNotFound => "no rows returned by a query that expected to return at least one row"@,
        FailureKind::UniqueViolation => "duplicate key value violates unique constraint"@,
        FailureKind::OwnerViolation => "duplicate key value violates unique constraint \"uniq_single_owner\""@,
        FailureKind::ForeignKeyViolation => "violates foreign key constraint"@,
        FailureKind::Other => "store failure"@,
    }
}

impl StoreFailure {
    /// Sorts a driver's error text into a kind and keeps the text as the
    /// diagnostic.
    pub fn classify(text: String) -> (failure: StoreFailure)
        ensures
            failure@ == (FailureView { kind: classified(text@), detail: text@ }),
    {
        let kind = if contains(text.as_str(), "duplicate key value") {
            if contains(text.as_str(), "uniq_single_owner") {
                FailureKind::OwnerViolation
            } else {
                FailureKind::UniqueViolation
            }
        } else {
            FailureKind::Other
        };
        StoreFailure { kind, detail: text }
    }

    /// A failure of the given kind with the tables' own diagnostic text.
    pub fn raise(kind: FailureKind) -> (failure: StoreFailure)
        ensures
            failure@ == (FailureView { kind, detail: diagnostic(kind) }),
    {
        let detail = match kind {
            FailureKind::RowNotFound => String::from_str(
                "no rows returned by a query that expected to return at least one row",
            ),
            FailureKind::UniqueViolation => String::from_str(
                "duplicate key value violates unique constraint",
            ),
            FailureKind::OwnerViolation => String::from_str(
                "duplicate key value violates unique constraint \"uniq_single_owner\"",
            ),
            FailureKind::ForeignKeyViolation => String::from_str("violates foreign key constraint"),
            FailureKind::Other => String::from_str("store failure"),
        };
        StoreFailure { kind, detail }
    }

    /// The failure of a lookup that found no row.
    pub fn row_not_found() -> (failure: StoreFailure)
        ensures
            failure@ == (FailureView {
                kind: FailureKind::RowNotFound,
                detail: diagnostic(FailureKind::RowNotFound),
            }),
    {
        StoreFailure::raise(FailureKind::RowNotFound)
    }
}

impl Clone for StoreFailure {
    fn clone(&self) -> (copy: Self)
        ensures
            copy@ == self@,
    {
        StoreFailure { kind: self.kind, detail: self.detail.clone() }
    }
}

} // verus!
