use vstd::prelude::*;

verus! {

/// A failure from the database client, opaque to the library.
#[verifier::external_type_specification]
#[verifier::external_body]
pub struct ExPgError(tokio_postgres::Error);

/// A failure of the password hasher, opaque to the library.
#[verifier::external_type_specification]
#[verifier::external_body]
pub struct ExPassError(libreauth::pass::Error);

/// A failure of the configuration store, opaque to the library.
#[verifier::external_type_specification]
#[verifier::external_body]
pub struct ExConfigError(config::ConfigError);

/// The errors of this library.
#[derive(Debug)]
pub enum AppError {
    /// The caller is not allowed to do this (HTTP 401).
    Unauthorized(String),
    /// Nothing was found (HTTP 404).
    NotFound(String),
    /// The request cannot be served (HTTP 400).
    BadRequest(String),
    /// A password could not be hashed or checked.
    PasswordError { source: libreauth::pass::Error },
    /// A stored password hash asks for settings this program does not check
    /// passwords under.
    UnsupportedPasswordHash(String),
    /// The database stayed unreachable through every allowed retry.
    DisconnectedError(String),
    /// The database, or its client, reported an error that is not transient.
    PgError { source: tokio_postgres::Error },
    /// A setting could not be read or converted.
    ConfigError { source: config::ConfigError },
    /// The settings ask for something this program cannot do.
    BadConfig(String),
    /// A state machine received an event that its state does not allow.
    InvariantViolation(String),
}

/// The terminal error once the retries for a connection or a statement are
/// used up.
pub fn disconnected() -> (r: AppError)
    ensures
        r is DisconnectedError,
{
    AppError::DisconnectedError(String::from_str("Failed to connect to database"))
}

impl From<tokio_postgres::Error> for AppError {
    fn from(source: tokio_postgres::Error) -> (r: AppError) {
        AppError::PgError { source }
    }
}

impl vstd::std_specs::convert::FromSpecImpl<tokio_postgres::Error> for AppError {
    open spec fn obeys_from_spec() -> bool {
        true
    }

    open spec fn from_spec(source: tokio_postgres::Error) -> AppError {
        AppError::PgError { source }
    }
}

} // verus!
