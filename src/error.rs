use vstd::prelude::*;

verus! {

/// What went wrong, as the caller sees it.
#[derive(Debug, Clone, Copy, PartialEq, Eq, Structural)]
pub enum ErrorKind {
    /// One or more of a new team's members do not exist.
    MembersNotFound,
    /// A required reference of a new record does not resolve.
    DependencyNotFound,
    /// A statement failed (a constraint, a lost connection).
    Database,
    /// Beginning or committing the transaction failed: the outcome of a
    /// commit is then unknown to the caller.
    Transaction,
    /// The record addressed by id does not exist.
    NotFound,
    /// No database connection could be had in time.
    Unavailable,
    /// Results came in an order that the operation did not ask for.
    Internal,
}

/// The HTTP status that answers an error of kind `k`.
pub open spec fn status_of(k: ErrorKind) -> u16 {
    match k {
        ErrorKind::MembersNotFound => 400,
        ErrorKind::DependencyNotFound => 500,
        ErrorKind::Database => 500,
        ErrorKind::Transaction => 500,
        ErrorKind::NotFound => 404,
        ErrorKind::Unavailable => 503,
        ErrorKind::Internal => 500,
    }
}

/// An error with its human-readable message.
#[derive(Debug, Clone, PartialEq)]
pub struct ApiError {
    pub kind: ErrorKind,
    pub message: String,
}

impl ApiError {
    pub fn status(&self) -> (r: u16)
        ensures
            r == status_of(self.kind),
    {
        match self.kind {
                ErrorKind::MembersNotFound => 400,
            ErrorKind::DependencyNotFound => 500,
            ErrorKind::Database => 500,
            ErrorKind::Transaction => 500,
            ErrorKind::NotFound => 404,
            ErrorKind::Unavailable => 503,
            ErrorKind::Internal => 500,
        }
    }
}

/// What the database layer reports of a failed step.
#[derive(Debug, Clone, PartialEq)]
pub struct DbFailure {
    /// The pool had no connection to give in time.
    pub pool_exhausted: bool,
    pub message: String,
}

/// The kind of error that a failed step becomes: a begin or a commit is a
/// transaction failure, any other step a statement failure, unless no
/// connection could be had at all.
pub open spec fn failure_kind(in_transaction_control: bool, f: DbFailure) -> ErrorKind {
    if f.pool_exhausted {
        ErrorKind::Unavailable
    } else if in_transaction_control {
        ErrorKind::Transaction
    } else {
        ErrorKind::Database
    }
}

/// Turns a failed step into the error that the caller sees; the message is
/// the database's own.
pub fn failure_error(in_transaction_control: bool, f: DbFailure) -> (e: ApiError)
    ensures
        e.kind == failure_kind(in_transaction_control, f),
        e.message@ == f.message@,
{
    let kind = if f.pool_exhausted {
        ErrorKind::Unavailable
    } else if in_transaction_control {
        ErrorKind::Transaction
    } else {
        ErrorKind::Database
    };
    ApiError { kind, message: f.message }
}

/// An error of kind `kind` with a fixed message.
pub fn error_with(kind: ErrorKind, message: &str) -> (e: ApiError)
    ensures
        e.kind == kind,
        e.message@ == message@,
{
    ApiError { kind, message: String::from_str(message) }
}

} // verus!
