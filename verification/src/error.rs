//! Why building a part of the graph can be refused.

use vstd::prelude::*;

verus! {

/// Why building a part of the graph was refused.
///
/// Every error is local to the call that reports it: the stack is left as it
/// was before that call.
#[derive(Debug, PartialEq, Eq)]
pub enum GraphError {
    /// A sibling of the same class already carries the name.
    DuplicateName,
    /// The handle does not name a fitting node of the stack.
    UnknownNode,
    /// A required field of a builder was never set.
    MissingField { field: String },
    /// `build` was called on a builder that had been built before.
    AlreadyBuilt,
}

/// The mathematical value of a [`GraphError`].
pub enum ErrorView {
    DuplicateName,
    UnknownNode,
    MissingField { field: Seq<char> },
    AlreadyBuilt,
}

impl View for GraphError {
    type V = ErrorView;

    open spec fn view(&self) -> ErrorView {
        match self {
            GraphError::DuplicateName => ErrorView::DuplicateName,
            GraphError::UnknownNode => ErrorView::UnknownNode,
            GraphError::MissingField { field } => ErrorView::MissingField { field: field@ },
            GraphError::AlreadyBuilt => ErrorView::AlreadyBuilt,
        }
    }
}

impl GraphError {
    /// The error for a required field that was left unset.
    pub fn missing(field: &str) -> (e: GraphError)
        ensures
            e@ == (ErrorView::MissingField { field: field@ }),
    {
        GraphError::MissingField { field: field.to_owned() }
    }

    /// A sentence that describes the error.
    pub fn message(&self) -> (text: String)
        ensures
            text@ == self@.message(),
    {
        match self {
            GraphError::DuplicateName => "a sibling already has this name".to_owned(),
            GraphError::UnknownNode => "the node is not part of the stack".to_owned(),
            GraphError::MissingField { field } => "missing field '".to_owned().concat(
                field.as_str(),
            ).concat("'"),
            GraphError::AlreadyBuilt => "the builder was already built".to_owned(),
        }
    }
}

impl ErrorView {
    /// The sentence that [`GraphError::message`] returns.
    pub open spec fn message(self) -> Seq<char> {
        match self {
            ErrorView::DuplicateName => "a sibling already has this name"@,
            ErrorView::UnknownNode => "the node is not part of the stack"@,
            ErrorView::MissingField { field } => "missing field '"@ + field + "'"@,
            ErrorView::AlreadyBuilt => "the builder was already built"@,
        }
    }
}

} // verus!
