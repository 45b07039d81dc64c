use vstd::prelude::*;

verus! {

/// Every failure the registry, the user store and the token rules report.
#[derive(Clone, Debug)]
pub enum AppError {
    /// Bad credentials or a rejected token.
    Auth(String),
    /// A user-level validation failure, such as an email already registered.
    User(String),
    /// A service name that is already taken; holds the name.
    Service(String),
    /// No record has the given key; holds the key.
    NotFound(String),
    /// Reading or writing a data file failed.
    Io(String),
    /// A data file or request body could not be parsed.
    Json(String),
    /// A token could not be signed or decoded.
    Jwt(String),
    /// The container runtime refused or failed a call.
    Docker(String),
    /// Password hashing or checking failed.
    Bcrypt(String),
    /// An internal consistency check failed.
    Internal(String),
}

impl AppError {
    /// The HTTP status an error is reported with.
    pub open spec fn status_spec(&self) -> u16 {
        match self {
            AppError::Auth(_) => 401,
            AppError::User(_) => 409,
            AppError::Service(_) => 409,
            AppError::NotFound(_) => 404,
            AppError::Docker(_) => 502,
            _ => 500,
        }
    }

    pub fn status_code(&self) -> (r: u16)
        ensures
            r == self.status_spec(),
    {
        match self {
            AppError::Auth(_) => 401,
            AppError::User(_) => 409,
            AppError::Service(_) => 409,
            AppError::NotFound(_) => 404,
            AppError::Docker(_) => 502,
            _ => 500,
        }
    }
}

} // verus!
