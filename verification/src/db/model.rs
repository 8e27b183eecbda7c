//! Index records and the failures of the store.
use vstd::prelude::*;
use vstd::string::*;

verus! {

/// The key of an index record.
pub type EntityId = i32;

/// An index record as the store holds it. Instants are whole seconds since
/// the Unix epoch, read from the store's own clock.
#[derive(Clone, Debug, PartialEq)]
pub struct IndexEntity {
    pub index_id: EntityId,
    pub index_type: String,
    pub data_source: String,
    pub region: String,
    pub status: String,
    pub created_at: i64,
    pub updated_at: i64,
}

/// What went wrong in the store.
#[derive(Clone, Debug, PartialEq)]
pub enum ProvideError {
    /// The requested entity does not exist.
    NotFound,
    /// The operation violates a uniqueness constraint.
    UniqueViolation { details: String },
    /// The operation violates the data model.
    ModelViolation { details: String, source: String },
    /// Any other failure, with the store's own words.
    UnHandledError { source: String },
}

/// The mathematical value of a [`ProvideError`].
pub enum ProvideErrorView {
    NotFound,
    UniqueViolation { details: Seq<char> },
    ModelViolation { details: Seq<char>, source: Seq<char> },
    UnHandledError { source: Seq<char> },
}

impl View for ProvideError {
    type V = ProvideErrorView;

    open spec fn view(&self) -> ProvideErrorView {
        match *self {
            ProvideError::NotFound => ProvideErrorView::NotFound,
            ProvideError::UniqueViolation { details } => ProvideErrorView::UniqueViolation {
                details: details@,
            },
            ProvideError::ModelViolation { details, source } => ProvideErrorView::ModelViolation {
                details: details@,
                source: source@,
            },
            ProvideError::UnHandledError { source } => ProvideErrorView::UnHandledError {
                source: source@,
            },
        }
    }
}

/// A failure as the database driver reports it, reduced to what the library
/// reads of it.
#[derive(Clone, Debug, PartialEq)]
pub enum DbFailure {
    /// A query that had to return a row returned none.
    RowNotFound,
    /// The database engine refused the statement: its result code, written
    /// in decimal, and its message.
    Database { code: String, message: String },
    /// Anything else, in the driver's words.
    Other { text: String },
}

/// The mathematical value of a [`DbFailure`].
pub enum DbFailureView {
    RowNotFound,
    Database { code: Seq<char>, message: Seq<char> },
    Other { text: Seq<char> },
}

impl View for DbFailure {
    type V = DbFailureView;

    open spec fn view(&self) -> DbFailureView {
        match *self {
            DbFailure::RowNotFound => DbFailureView::RowNotFound,
            DbFailure::Database { code, message } => DbFailureView::Database {
                code: code@,
                message: message@,
            },
            DbFailure::Other { text } => DbFailureView::Other { text: text@ },
        }
    }
}

/// The engine's extended result code for a broken uniqueness constraint.
pub open spec fn unique_violation_code() -> Seq<char> {
    "2067"@
}

impl ProvideErrorView {
    /// The error in words.
    pub open spec fn message(self) -> Seq<char> {
        match self {
            ProvideErrorView::NotFound => "Entity does not exist"@,
            ProvideErrorView::UniqueViolation { details } => {
                "Operation violates uniqueness constraint: "@ + details
            },
            ProvideErrorView::ModelViolation { details, source } => {
                "Operation violates model: "@ + details + " ("@ + source + ")"@
            },
            ProvideErrorView::UnHandledError { source } => "UnHandled Error: "@ + source,
        }
    }

    /// What an engine failure with this code and message means, if the code
    /// is one that has a meaning of its own.
    pub open spec fn of_engine(code: Seq<char>, message: Seq<char>) -> Option<ProvideErrorView> {
        if code == unique_violation_code() {
            Some(ProvideErrorView::UniqueViolation { details: message })
        } else {
            None
        }
    }

    /// The error that stands for a driver failure.
    pub open spec fn of_failure(failure: DbFailureView) -> ProvideErrorView {
        match failure {
            DbFailureView::RowNotFound => ProvideErrorView::NotFound,
            DbFailureView::Database { code, message } => match Self::of_engine(code, message) {
                Some(e) => e,
                None => ProvideErrorView::UnHandledError { source: message },
            },
            DbFailureView::Other { text } => ProvideErrorView::UnHandledError { source: text },
        }
    }
}

impl ProvideError {
    /// The error in words.
    pub fn message(&self) -> (r: String)
        ensures
            r@ == self@.message(),
    {
        match self {
            ProvideError::NotFound => String::from_str("Entity does not exist"),
            ProvideError::UniqueViolation { details } => String::from_str(
                "Operation violates uniqueness constraint: ",
            ).concat(details.as_str()),
            ProvideError::ModelViolation { details, source } => String::from_str(
                "Operation violates model: ",
            ).concat(details.as_str()).concat(" (").concat(source.as_str()).concat(")"),
            ProvideError::UnHandledError { source } => String::from_str(
                "UnHandled Error: ",
            ).concat(source.as_str()),
        }
    }

    /// Gives an engine failure its more specific meaning, by its result
    /// code. A code without one is handed back as `Err`.
    pub fn try_from(code: &str, message: &str) -> (r: Result<ProvideError, ()>)
        ensures
            match ProvideErrorView::of_engine(code@, message@) {
                Some(e) => r matches Ok(p) && p@ == e,
                None => r is Err,
            },
    {
        if String::from_str(code) == String::from_str("2067") {
            Ok(ProvideError::UniqueViolation { details: String::from_str(message) })
        } else {
            Err(())
        }
    }

    /// The error that stands for a driver failure: a missing row is
    /// `NotFound`, an engine failure with a known code is what that code
    /// means, and everything else is passed on unhandled.
    pub fn from(failure: DbFailure) -> (r: ProvideError)
        ensures
            r@ == ProvideErrorView::of_failure(failure@),
    {
        match failure {
            DbFailure::RowNotFound => ProvideError::NotFound,
            DbFailure::Database { code, message } => {
                match ProvideError::try_from(code.as_str(), message.as_str()) {
                    Ok(e) => e,
                    Err(_) => ProvideError::UnHandledError { source: message },
                }
            },
            DbFailure::Other { text } => ProvideError::UnHandledError { source: text },
        }
    }
}

} // verus!
