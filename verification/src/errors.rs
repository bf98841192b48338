//! How a request fails, and how failures of the backend are read.

use vstd::prelude::*;

verus! {

/// `anyhow::Error`: what a failed backend call hands back. It is carried through as it came;
/// all that is ever read of it is what it prints.
#[verifier::external_type_specification]
#[verifier::external_body]
pub struct ExAnyhowError(anyhow::Error);

/// Why a request is not answered with a success.
#[derive(Debug)]
pub enum AppError {
    BadRequest(String),
    Unauthorized(String),
    Forbidden(String),
    NotFound(String),
    Conflict(String),
    RateLimited,
    Internal(String),
    /// A backend failure that no rule gives a meaning to.
    Other(anyhow::Error),
    /// A failure with nothing but a message, told like one of the backend's.
    Untyped(String),
}

/// What an [`AppError`] says.
pub enum Failure {
    BadRequest(Seq<char>),
    Unauthorized(Seq<char>),
    Forbidden(Seq<char>),
    NotFound(Seq<char>),
    Conflict(Seq<char>),
    RateLimited,
    Internal(Seq<char>),
    Other(anyhow::Error),
    Untyped(Seq<char>),
}

impl View for AppError {
    type V = Failure;

    open spec fn view(&self) -> Failure {
        match self {
            AppError::BadRequest(message) => Failure::BadRequest(message@),
            AppError::Unauthorized(message) => Failure::Unauthorized(message@),
            AppError::Forbidden(message) => Failure::Forbidden(message@),
            AppError::NotFound(message) => Failure::NotFound(message@),
            AppError::Conflict(message) => Failure::Conflict(message@),
            AppError::RateLimited => Failure::RateLimited,
            AppError::Internal(message) => Failure::Internal(message@),
            AppError::Other(error) => Failure::Other(*error),
            AppError::Untyped(message) => Failure::Untyped(message@),
        }
    }
}

/// `ValidationErrors` of validator: what is wrong with the fields of a request. All that is ever
/// read of it is what it prints.
#[verifier::external_type_specification]
#[verifier::external_body]
pub struct ExValidationErrors(validator::ValidationErrors);

/// `text` is something that `errors` may print.
pub open spec fn lists(errors: validator::ValidationErrors, text: Seq<char>) -> bool {
    exists|printed: String|
        #[trigger] vstd::string::to_string_from_display_ensures::<validator::ValidationErrors>(
            &errors,
            printed,
        ) && printed@ == text
}

/// `text` is something that `error` may print.
pub open spec fn prints(error: anyhow::Error, text: Seq<char>) -> bool {
    exists|printed: String|
        #[trigger] vstd::string::to_string_from_display_ensures::<anyhow::Error>(
            &error,
            printed,
        ) && printed@ == text
}

} // verus!
