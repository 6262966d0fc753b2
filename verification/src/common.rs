//! The error type that the service's handlers answer with.
use vstd::prelude::*;

verus! {

/// An error of the service as a whole, by kind.
#[derive(Debug)]
pub enum ConnectifyError {
    HttpError(String),
    ExternalServiceError { service: String, message: String },
    ParseError(String),
    ConfigError(String),
    AuthError(String),
    ValidationError(String),
    NotFoundError(String),
    InternalError(String),
}

impl ConnectifyError {
    /// The HTTP status that answers this error: 400 for bad input, 401 for failed
    /// authentication, 404 for what is not there, 502 for failures of outside services,
    /// 500 otherwise.
    pub open spec fn status_spec(&self) -> u16 {
        match self {
            ConnectifyError::HttpError(_) => 502,
            ConnectifyError::ExternalServiceError { .. } => 502,
            ConnectifyError::ParseError(_) => 400,
            ConnectifyError::ConfigError(_) => 500,
            ConnectifyError::AuthError(_) => 401,
            ConnectifyError::ValidationError(_) => 400,
            ConnectifyError::NotFoundError(_) => 404,
            ConnectifyError::InternalError(_) => 500,
        }
    }

    pub fn status_code(&self) -> (c: u16)
        ensures
            c == self.status_spec(),
    {
        match self {
            ConnectifyError::HttpError(_) => 502,
            ConnectifyError::ExternalServiceError { .. } => 502,
            ConnectifyError::ParseError(_) => 400,
            ConnectifyError::ConfigError(_) => 500,
            ConnectifyError::AuthError(_) => 401,
            ConnectifyError::ValidationError(_) => 400,
            ConnectifyError::NotFoundError(_) => 404,
            ConnectifyError::InternalError(_) => 500,
        }
    }
}

} // verus!
