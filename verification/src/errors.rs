//! The ways an operation on the table can fail, and the payload sent when
//! no route matches a request.

use vstd::prelude::*;
use crate::forms::Column;

verus! {

/// Why the table refused or could not carry out an operation. Each failure
/// that reaches a client carries the message it is told.
#[derive(Debug)]
pub enum StoreError {
    /// The input is incomplete: a column that every row needs was left out.
    ValidationError { message: String },
    /// No row has the identifier that was asked for.
    NotFound,
    /// The backend could not carry out the operation.
    PersistenceError { message: String },
}

/// What a backend reports of a statement that failed, as far as it matters
/// here.
#[derive(Clone, Copy, Debug, PartialEq, Eq, Structural)]
pub enum Failure {
    /// The statement asked for one row and matched none.
    NoRow,
    /// A column that must hold a value was given none.
    NotNullViolation,
    /// Any other violated constraint, a lost connection, a statement that
    /// could not be built or run.
    Other,
}

/// What a [`StoreError`] means in contracts.
pub enum StoreErrorView {
    ValidationError { message: Seq<char> },
    NotFound,
    PersistenceError { message: Seq<char> },
}

impl View for StoreError {
    type V = StoreErrorView;

    open spec fn view(&self) -> StoreErrorView {
        match self {
            StoreError::ValidationError { message } => StoreErrorView::ValidationError {
                message: message@,
            },
            StoreError::NotFound => StoreErrorView::NotFound,
            StoreError::PersistenceError { message } => StoreErrorView::PersistenceError {
                message: message@,
            },
        }
    }
}

/// The outcome of an operation on the table, as contracts see it. The value
/// of a success is a plain one and stands for itself.
pub open spec fn outcome_view<T>(outcome: Result<T, StoreError>) -> Result<T, StoreErrorView> {
    match outcome {
        Ok(value) => Ok(value),
        Err(error) => Err(error@),
    }
}

/// What a client is told when a new row lacks `column`.
pub open spec fn not_null_message(column: Column) -> Seq<char> {
    "null value in column \""@ + column.name_spec()
        + "\" of relation \"employees\" violates not-null constraint"@
}

/// What a client is told when no identifier is left to assign.
pub open spec fn exhausted_message() -> Seq<char> {
    "nextval: reached maximum value of sequence \"employees_id_seq\" (2147483647)"@
}

/// What a client is told when no row has the identifier asked for.
pub open spec fn not_found_message() -> Seq<char> {
    "Record not found"@
}

impl StoreErrorView {
    /// The message that describes the failure.
    pub open spec fn message(self) -> Seq<char> {
        match self {
            StoreErrorView::ValidationError { message } => message,
            StoreErrorView::NotFound => not_found_message(),
            StoreErrorView::PersistenceError { message } => message,
        }
    }

    /// The kind that a backend's failure falls under: a missing row is
    /// `NotFound`, a column left without a value is a `ValidationError`, and
    /// everything else is a `PersistenceError`; the last two keep the
    /// backend's message.
    pub open spec fn classify(failure: Failure, message: Seq<char>) -> StoreErrorView {
        match failure {
            Failure::NoRow => StoreErrorView::NotFound,
            Failure::NotNullViolation => StoreErrorView::ValidationError { message },
            Failure::Other => StoreErrorView::PersistenceError { message },
        }
    }

    /// The failure raised when a new row lacks `column`.
    pub open spec fn not_null(column: Column) -> StoreErrorView {
        StoreErrorView::ValidationError { message: not_null_message(column) }
    }

    /// The failure raised when no identifier is left to assign.
    pub open spec fn exhausted() -> StoreErrorView {
        StoreErrorView::PersistenceError { message: exhausted_message() }
    }
}

impl StoreError {
    /// The message that describes the failure.
    pub fn message(&self) -> (message: String)
        ensures
            message@ == self@.message(),
    {
        match self {
            StoreError::ValidationError { message } => message.clone(),
            StoreError::NotFound => "Record not found".to_owned(),
            StoreError::PersistenceError { message } => message.clone(),
        }
    }

    /// Sorts a backend's failure into one of the three kinds and keeps its
    /// message.
    pub fn classify(failure: Failure, message: String) -> (error: StoreError)
        ensures
            error@ == StoreErrorView::classify(failure, message@),
    {
        match failure {
            Failure::NoRow => StoreError::NotFound,
            Failure::NotNullViolation => StoreError::ValidationError { message },
            Failure::Other => StoreError::PersistenceError { message },
        }
    }

    /// The failure raised when a new row lacks `column`.
    pub fn not_null(column: Column) -> (error: StoreError)
        ensures
            error@ == StoreErrorView::not_null(column),
    {
        let mut message = "null value in column \"".to_owned();
        message.append(column.name());
        message.append("\" of relation \"employees\" violates not-null constraint");
        StoreError::ValidationError { message }
    }

    /// The failure raised when no identifier is left to assign.
    pub fn exhausted() -> (error: StoreError)
        ensures
            error@ == StoreErrorView::exhausted(),
    {
        StoreError::PersistenceError {
            message: "nextval: reached maximum value of sequence \"employees_id_seq\" (2147483647)".to_owned(),
        }
    }
}

impl Clone for StoreError {
    fn clone(&self) -> (copy: Self)
        ensures
            copy == *self,
    {
        match self {
            StoreError::ValidationError { message } => StoreError::ValidationError {
                message: message.clone(),
            },
            StoreError::NotFound => StoreError::NotFound,
            StoreError::PersistenceError { message } => StoreError::PersistenceError {
                message: message.clone(),
            },
        }
    }
}

/// The payload sent when no route matches a request.
#[derive(Debug)]
pub struct ApiError {
    pub message: String,
}

impl View for ApiError {
    type V = Seq<char>;

    open spec fn view(&self) -> Seq<char> {
        self.message@
    }
}

} // verus!
