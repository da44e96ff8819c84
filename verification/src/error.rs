use vstd::prelude::*;

verus! {

/// The error type shared by every layer of the application.
#[derive(Clone, Debug, PartialEq)]
pub enum ApplicationError {
    AuthError(String),
    AuthenticationError(String),
    AuthorizationError(String),
    DataBaseError(String),
    DomainError(String),
    ExternalError(String),
    InvalidOperation(&'static str),
    ResourceNotFound { resource_name: &'static str, id: String },
    UseCaseError(String),
    ValidationError(String),
    ValueObjectError(String),
}

/// Result type whose error is an [`ApplicationError`].
pub type ApplicationResult<T> = Result<T, ApplicationError>;

/// The HTTP status code that answers a request failing with `e`.
pub open spec fn spec_status_code(e: ApplicationError) -> u16 {
    match e {
        ApplicationError::AuthError(..) => 401,
        ApplicationError::AuthenticationError(..) => 401,
        ApplicationError::AuthorizationError(..) => 403,
        ApplicationError::InvalidOperation(..) => 400,
        ApplicationError::ValidationError(..) => 400,
        ApplicationError::ResourceNotFound { .. } => 404,
        ApplicationError::DataBaseError(..) => 500,
        ApplicationError::DomainError(..) => 500,
        ApplicationError::ExternalError(..) => 500,
        ApplicationError::UseCaseError(..) => 500,
        ApplicationError::ValueObjectError(..) => 500,
    }
}

impl ApplicationError {
    /// The HTTP status code of the response that reports this error.
    pub fn status_code(&self) -> (code: u16)
        ensures
            code == spec_status_code(*self),
    {
        match self {
            ApplicationError::AuthError(..) => 401,
            ApplicationError::AuthenticationError(..) => 401,
            ApplicationError::AuthorizationError(..) => 403,
            ApplicationError::InvalidOperation(..) => 400,
            ApplicationError::ValidationError(..) => 400,
            ApplicationError::ResourceNotFound { .. } => 404,
            ApplicationError::DataBaseError(..) => 500,
            ApplicationError::DomainError(..) => 500,
            ApplicationError::ExternalError(..) => 500,
            ApplicationError::UseCaseError(..) => 500,
            ApplicationError::ValueObjectError(..) => 500,
        }
    }
}

} // verus!
