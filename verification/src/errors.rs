//! The error type that every operation of the service reports, and what an
//! HTTP client is answered for each error.
use vstd::prelude::*;
use vstd::string::*;

verus! {

/// An error of the service. The payload names the entity or field concerned,
/// or, for database and unexpected failures, describes the cause.
#[derive(Debug, Clone, PartialEq)]
pub enum CustomError {
    NotFound(String),
    DatabaseError(String),
    ValidationError(String),
    Unauthorized(String),
    Unexpected(String),
    Duplicated(String),
    NoFieldUpdate(String),
}

/// How a database call failed, as the database driver reports it.
#[derive(Debug, Clone, PartialEq)]
pub enum DbFailure {
    /// The database itself returned an error.
    Database(String),
    /// A query that must return a row returned none.
    RowNotFound(String),
    /// Any other failure (pool, protocol, decoding, ...).
    Other(String),
}

/// The HTTP status with which a client is answered for an error.
pub open spec fn status_of(e: CustomError) -> u16 {
    match e {
        CustomError::NotFound(_) => 404,
        CustomError::DatabaseError(_) => 400,
        CustomError::ValidationError(_) => 400,
        CustomError::Unauthorized(_) => 401,
        CustomError::Unexpected(_) => 500,
        CustomError::Duplicated(_) => 400,
        CustomError::NoFieldUpdate(_) => 400,
    }
}

/// The body text with which a client is answered for an error.
pub open spec fn message_of(e: CustomError) -> Seq<char> {
    match e {
        CustomError::NotFound(t) => t@ + " not found"@,
        CustomError::DatabaseError(_) => "Database error"@,
        CustomError::ValidationError(_) => "Validation failed"@,
        CustomError::Unauthorized(_) => "Authorization failed"@,
        CustomError::Unexpected(_) => "Unexpected error"@,
        CustomError::Duplicated(t) => "Duplicated "@ + t@,
        CustomError::NoFieldUpdate(_) => "No field to update"@,
    }
}

impl CustomError {
    /// `NotFound` with the given entity name.
    pub fn not_found(entity: &str) -> (r: CustomError)
        ensures
            r matches CustomError::NotFound(t) && t@ == entity@,
    {
        CustomError::NotFound(String::from_str(entity))
    }

    /// `ValidationError` with the given field name.
    pub fn validation(field: &str) -> (r: CustomError)
        ensures
            r matches CustomError::ValidationError(t) && t@ == field@,
    {
        CustomError::ValidationError(String::from_str(field))
    }

    /// `Unauthorized` with the given role name.
    pub fn unauthorized(role: &str) -> (r: CustomError)
        ensures
            r matches CustomError::Unauthorized(t) && t@ == role@,
    {
        CustomError::Unauthorized(String::from_str(role))
    }

    /// `NoFieldUpdate` with the given entity name.
    pub fn no_field_update(entity: &str) -> (r: CustomError)
        ensures
            r matches CustomError::NoFieldUpdate(t) && t@ == entity@,
    {
        CustomError::NoFieldUpdate(String::from_str(entity))
    }

    /// `Duplicated` with the given entity name.
    pub fn duplicated(entity: &str) -> (r: CustomError)
        ensures
            r matches CustomError::Duplicated(t) && t@ == entity@,
    {
        CustomError::Duplicated(String::from_str(entity))
    }

    /// `Unexpected` with the given description.
    pub fn unexpected(cause: &str) -> (r: CustomError)
        ensures
            r matches CustomError::Unexpected(t) && t@ == cause@,
    {
        CustomError::Unexpected(String::from_str(cause))
    }

    /// The status and body text of the answer to a client for this error.
    pub fn into_response(&self) -> (r: (u16, String))
        ensures
            r.0 == status_of(*self),
            r.1@ == message_of(*self),
    {
        match self {
            CustomError::NotFound(t) => (404, t.clone().concat(" not found")),
            CustomError::DatabaseError(_) => (400, String::from_str("Database error")),
            CustomError::ValidationError(_) => (400, String::from_str("Validation failed")),
            CustomError::Unauthorized(_) => (401, String::from_str("Authorization failed")),
            CustomError::Unexpected(_) => (500, String::from_str("Unexpected error")),
            CustomError::Duplicated(t) => {
                let mut s = String::from_str("Duplicated ");
                s.append(t.as_str());
                (400, s)
            },
            CustomError::NoFieldUpdate(_) => (400, String::from_str("No field to update")),
        }
    }

    /// The error a repository reports for a failed database call. A missing
    /// row becomes `row_not_found` where the query looks a row up, and an
    /// unexpected error otherwise.
    pub fn from_db(failure: DbFailure, row_not_found: Option<CustomError>) -> (r: CustomError)
        ensures
            match failure {
                DbFailure::Database(m) => r matches CustomError::DatabaseError(t) && t@ == m@,
                DbFailure::RowNotFound(m) => match row_not_found {
                    Some(e) => r == e,
                    None => r matches CustomError::Unexpected(t) && t@ == m@,
                },
                DbFailure::Other(m) => r matches CustomError::Unexpected(t) && t@ == m@,
            },
    {
        match failure {
            DbFailure::Database(m) => CustomError::DatabaseError(m),
            DbFailure::RowNotFound(m) => match row_not_found {
                Some(e) => e,
                None => CustomError::Unexpected(m),
            },
            DbFailure::Other(m) => CustomError::Unexpected(m),
        }
    }
}

/// Every error is answered with a client error (4xx) or, for an unexpected
/// failure alone, with a server error.
pub proof fn law_error_status_classes(e: CustomError)
    ensures
        400 <= status_of(e) < 500 || (status_of(e) == 500 && e is Unexpected),
        status_of(e) == 404 <==> e is NotFound,
        status_of(e) == 401 <==> e is Unauthorized,
{
}

} // verus!
