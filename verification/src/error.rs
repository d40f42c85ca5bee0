use vstd::prelude::*;

verus! {

/// What the store itself reports when a statement cannot be prepared, bound or run.
#[verifier::external_type_specification]
pub struct ExStoreFault(sqlite::Error);

/// The ways a repository operation can fail.
#[derive(Debug, Clone, PartialEq)]
pub enum RepoError {
    /// A point lookup matched no row.
    NotFound,
    /// A method token is not one of the known methods.
    InvalidMethod,
    /// A workspace row was written but could not be linked to its user.
    JoinInsertFailed,
    /// The store refused a statement; `code` and `message` are the store's own.
    StoreError { code: Option<isize>, message: Option<String> },
}

/// An error with its text seen as a sequence of characters.
pub enum RepoErrorView {
    NotFound,
    InvalidMethod,
    JoinInsertFailed,
    StoreError { code: Option<isize>, message: Option<Seq<char>> },
}

impl View for RepoError {
    type V = RepoErrorView;

    open spec fn view(&self) -> RepoErrorView {
        match *self {
            RepoError::NotFound => RepoErrorView::NotFound,
            RepoError::InvalidMethod => RepoErrorView::InvalidMethod,
            RepoError::JoinInsertFailed => RepoErrorView::JoinInsertFailed,
            RepoError::StoreError { code, message } => RepoErrorView::StoreError {
                code,
                message: match message {
                    Some(text) => Some(text@),
                    None => None,
                },
            },
        }
    }
}

/// The outcome of an operation with every text, list and error seen as a mathematical value.
pub open spec fn outcome<T: DeepView>(res: Result<T, RepoError>) -> Result<T::V, RepoErrorView> {
    match res {
        Ok(value) => Ok(value.deep_view()),
        Err(error) => Err(error@),
    }
}

/// The text of the error raised for a row whose cells are not of the expected kinds.
pub open spec fn malformed_row_text() -> Seq<char> {
    "the store returned a row of an unexpected shape"@
}

impl RepoError {
    /// Wraps a fault reported by the store, keeping its code and message.
    pub fn from_store(fault: sqlite::Error) -> (res: RepoError)
        ensures
            res == (RepoError::StoreError { code: fault.code, message: fault.message }),
    {
        RepoError::StoreError { code: fault.code, message: fault.message }
    }

    /// The error for a row whose cells are not of the expected kinds.
    pub fn malformed_row() -> (res: RepoError)
        ensures
            res@ == (RepoErrorView::StoreError {
                code: None,
                message: Some(malformed_row_text()),
            }),
    {
        RepoError::StoreError {
            code: None,
            message: Some("the store returned a row of an unexpected shape".to_owned()),
        }
    }
}

} // verus!
