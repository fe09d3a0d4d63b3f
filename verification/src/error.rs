//! Error taxonomy of the domain and presentation layers.
//!
//! Lower layers report `DomainError`; the presentation boundary maps it
//! one-way into `BlogError`, and `BlogError` knows its HTTP status code.
//! Messages never carry material that must not reach a client.

use vstd::prelude::*;

verus! {

/// Failures raised by the domain layer: authentication, lookups, persistence.
#[derive(Debug, Clone)]
pub enum DomainError {
    /// No user answers the given identifier; carries a short description.
    UserNotFound(String),
    /// A user with the same (folded) username already exists.
    UserAlreadyExists(String),
    /// The presented credentials are not acceptable.
    InvalidCredentials,
    /// No post answers the given identifier.
    PostNotFound,
    /// The requester is authenticated but does not own the resource.
    Forbidden,
    /// Missing or bad credentials; deliberately undifferentiated.
    Unauthorized,
    /// An internal primitive failed; the message stays server-side.
    Internal(String),
    /// The store failed; the message stays server-side.
    DatabaseError(String),
}

/// Failures reported at the presentation boundary.
#[derive(Debug, Clone)]
pub enum BlogError {
    /// No user answers the given identifier; carries a short description.
    UserNotFound(String),
    /// A user with the same (folded) username already exists.
    UserAlreadyExists(String),
    /// The presented credentials are not acceptable.
    InvalidCredentials,
    /// No post answers the given identifier.
    PostNotFound,
    /// The requester is authenticated but does not own the resource.
    Forbidden,
    /// Missing or bad credentials; deliberately undifferentiated.
    Unauthorized,
    /// An internal primitive failed; the message stays server-side.
    Internal(String),
    /// The store failed; the message stays server-side.
    DatabaseError(String),
    /// An account holds less than the amount a movement asks for.
    InsufficientFunds(String),
    /// A named resource does not exist.
    NotFound(String),
    /// The request body or parameters are malformed.
    Validation(String),
}

impl From<DomainError> for BlogError {
    /// The one-way mapping from the domain taxonomy into the
    /// presentation taxonomy; every variant keeps its meaning and payload.
    fn from(value: DomainError) -> (r: BlogError) {
        match value {
            DomainError::UserNotFound(e) => BlogError::UserNotFound(e),
            DomainError::UserAlreadyExists(e) => BlogError::UserAlreadyExists(e),
            DomainError::InvalidCredentials => BlogError::InvalidCredentials,
            DomainError::PostNotFound => BlogError::PostNotFound,
            DomainError::Forbidden => BlogError::Forbidden,
            DomainError::Unauthorized => BlogError::Unauthorized,
            DomainError::Internal(e) => BlogError::Internal(e),
            DomainError::DatabaseError(e) => BlogError::DatabaseError(e),
        }
    }
}

impl vstd::std_specs::convert::FromSpecImpl<DomainError> for BlogError {
    open spec fn obeys_from_spec() -> bool {
        true
    }

    open spec fn from_spec(value: DomainError) -> BlogError {
        match value {
            DomainError::UserNotFound(e) => BlogError::UserNotFound(e),
            DomainError::UserAlreadyExists(e) => BlogError::UserAlreadyExists(e),
            DomainError::InvalidCredentials => BlogError::InvalidCredentials,
            DomainError::PostNotFound => BlogError::PostNotFound,
            DomainError::Forbidden => BlogError::Forbidden,
            DomainError::Unauthorized => BlogError::Unauthorized,
            DomainError::Internal(e) => BlogError::Internal(e),
            DomainError::DatabaseError(e) => BlogError::DatabaseError(e),
        }
    }
}

impl BlogError {
    /// The HTTP status that announces this error to a client: bad input 400,
    /// missing or bad credentials 401, a requester that is not the owner 403,
    /// a missing resource 404, a second user under a taken name 409, and an
    /// internal or store failure 500 with no detail leaked.
    pub open spec fn spec_status_code(&self) -> u16 {
        match self {
            BlogError::Validation(_) => 400,
            BlogError::InsufficientFunds(_) => 400,
            BlogError::Unauthorized => 401,
            BlogError::InvalidCredentials => 401,
            BlogError::Forbidden => 403,
            BlogError::NotFound(_) => 404,
            BlogError::PostNotFound => 404,
            BlogError::UserNotFound(_) => 404,
            BlogError::UserAlreadyExists(_) => 409,
            BlogError::Internal(_) => 500,
            BlogError::DatabaseError(_) => 500,
        }
    }

    /// See [`Self::spec_status_code`].
    pub fn status_code(&self) -> (r: u16)
        ensures
            r == self.spec_status_code(),
    {
        match self {
            BlogError::Validation(_) => 400,
            BlogError::InsufficientFunds(_) => 400,
            BlogError::Unauthorized => 401,
            BlogError::InvalidCredentials => 401,
            BlogError::Forbidden => 403,
            BlogError::NotFound(_) => 404,
            BlogError::PostNotFound => 404,
            BlogError::UserNotFound(_) => 404,
            BlogError::UserAlreadyExists(_) => 409,
            BlogError::Internal(_) => 500,
            BlogError::DatabaseError(_) => 500,
        }
    }
}

} // verus!
