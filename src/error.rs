//! The error type of the web service and what each error shows to the client.
use vstd::prelude::*;

verus! {

/// Declares `askama::Error`, carried through opaque.
#[verifier::external_type_specification]
#[verifier::external_body]
pub struct ExTemplateError(askama::Error);

/// Declares `sqlx::Error`, carried through opaque.
#[verifier::external_type_specification]
#[verifier::external_body]
pub struct ExStoreError(sqlx::Error);

/// Declares `tokio::task::JoinError`, carried through opaque.
#[verifier::external_type_specification]
#[verifier::external_body]
pub struct ExJoinError(tokio::task::JoinError);

/// What can go wrong while serving a request. Most errors reach the client, so each has
/// an HTTP status and a message that is safe to show.
#[derive(Debug)]
pub enum AppError {
    /// An HTML template failed to render.
    TemplateRender(askama::Error),
    /// A query against the store failed.
    Sqlx { source: sqlx::Error },
    /// A task on the worker pool did not complete.
    JoinError(tokio::task::JoinError),
    NotFound,
    Unauthorized,
    AlreadyExists,
}

/// The errors that are the service's own fault rather than the client's.
pub open spec fn is_internal(e: &AppError) -> bool {
    e is TemplateRender || e is Sqlx || e is JoinError
}

/// The HTTP status code of an error.
pub open spec fn status_of(e: &AppError) -> u16 {
    match e {
        AppError::NotFound => 404,
        AppError::Unauthorized => 401,
        AppError::AlreadyExists => 400,
        _ => 500,
    }
}

/// The message shown to the client: general, with no internal detail.
pub open spec fn message_of(e: &AppError) -> Seq<char> {
    match e {
        AppError::NotFound => "Not Found"@,
        AppError::Unauthorized => "Unauthorized"@,
        AppError::AlreadyExists => "The resource already exists"@,
        _ => "Internal Server Error"@,
    }
}

impl AppError {
    /// The HTTP status code appropriate for this error.
    pub fn status_code(&self) -> (r: u16)
        ensures
            r == status_of(self),
            is_internal(self) <==> r == 500,
    {
        match self {
            AppError::TemplateRender(_) => 500,
            AppError::Sqlx { .. } => 500,
            AppError::JoinError(_) => 500,
            AppError::NotFound => 404,
            AppError::Unauthorized => 401,
            AppError::AlreadyExists => 400,
        }
    }

    /// A short description of the general error, safe to send to clients.
    pub fn user_facing_error(&self) -> (r: &'static str)
        ensures
            r@ == message_of(self),
    {
        match self {
            AppError::TemplateRender(_) => "Internal Server Error",
            AppError::Sqlx { .. } => "Internal Server Error",
            AppError::JoinError(_) => "Internal Server Error",
            AppError::NotFound => "Not Found",
            AppError::Unauthorized => "Unauthorized",
            AppError::AlreadyExists => "The resource already exists",
        }
    }
}

} // verus!
