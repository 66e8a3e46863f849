use vstd::prelude::*;

verus! {

/// The errors that the library's operations report.
#[derive(Debug)]
pub enum AppError {
    /// A record that the operation needs does not exist; the text says which.
    NotFound(String),
    /// A record that the operation needs does not exist.
    GenericNotFound,
    /// Something went wrong that the caller cannot repair.
    InternalServerError,
    /// Stored or transmitted bytes are damaged or were not produced by this library.
    IntegrityViolation,
    /// The configuration cannot be used; the text says why.
    ConfigLoadError(String),
    /// A required configuration variable is not set.
    MissingEnvVar(&'static str),
}

/// Whether `e` is a `NotFound` error, whatever its text.
pub open spec fn is_not_found(e: AppError) -> bool {
    e is NotFound
}

/// Whether `e` is a `NotFound` error with exactly the text `msg`.
pub open spec fn not_found_with(e: AppError, msg: Seq<char>) -> bool {
    &&& e is NotFound
    &&& e->NotFound_0@ == msg
}

/// A `NotFound` error carrying the text `msg`.
pub fn not_found(msg: &str) -> (e: AppError)
    ensures
        not_found_with(e, msg@),
{
    AppError::NotFound(String::from_str(msg))
}

} // verus!
