//! The error taxonomy shared by every operation of the library.

use vstd::prelude::*;

verus! {

/// Every way an operation of the library can fail.
#[derive(Debug, Clone, Copy, PartialEq, Eq, Structural)]
pub enum ServerError {
    /// A lookup matched no row.
    NotFound,
    /// Unknown user or wrong password; the two are deliberately not told apart.
    InvalidCredentials,
    /// The caller presented no session identity, or one that resolves to no user.
    Unauthenticated,
    /// A registration named a username that is already taken.
    DuplicateUsername,
    /// A row was refused because it breaks a rule of the schema.
    ConstraintViolation,
    /// The password hashing primitive failed.
    HashingFailure,
    /// No database connection could be had from the pool.
    PoolExhausted,
    /// A required startup setting is missing.
    ConfigurationError,
    /// Any other failure of the backing store.
    StoreFailure,
}

/// What the backing store reported when it refused or failed a statement.
#[derive(Debug, Clone, Copy, PartialEq, Eq, Structural)]
pub enum StoreFault {
    /// A query that must return a row returned none.
    NotFound,
    /// A unique constraint was violated.
    UniqueViolation,
    /// A foreign key constraint was violated.
    ForeignKeyViolation,
    /// Anything else.
    Other,
}

impl ServerError {
    /// The error that a fault of the backing store surfaces as.
    pub open spec fn of_store_fault(fault: StoreFault) -> ServerError {
        match fault {
            StoreFault::NotFound => ServerError::NotFound,
            StoreFault::UniqueViolation => ServerError::DuplicateUsername,
            StoreFault::ForeignKeyViolation => ServerError::ConstraintViolation,
            StoreFault::Other => ServerError::StoreFailure,
        }
    }

    /// The text reported to the client for this error.
    pub open spec fn message_text(self) -> Seq<char> {
        match self {
            ServerError::NotFound => "Username not found."@,
            ServerError::InvalidCredentials => "Invalid credentials."@,
            ServerError::Unauthenticated => "User not logged in"@,
            ServerError::DuplicateUsername => "Username already taken."@,
            ServerError::ConstraintViolation => "Constraint violation."@,
            ServerError::HashingFailure => "Argonautica Error"@,
            ServerError::PoolExhausted => "r2d2 Error"@,
            ServerError::ConfigurationError => "Environment Error"@,
            ServerError::StoreFailure => "Diesel Error"@,
        }
    }

    /// Whether the process may go on serving requests after this error.
    pub open spec fn is_recoverable(self) -> bool {
        self != ServerError::ConfigurationError
    }

    /// The text reported to the client for this error.
    pub fn message(&self) -> (text: String)
        ensures
            text@ == self.message_text(),
    {
        match self {
            ServerError::NotFound => "Username not found.".to_owned(),
            ServerError::InvalidCredentials => "Invalid credentials.".to_owned(),
            ServerError::Unauthenticated => "User not logged in".to_owned(),
            ServerError::DuplicateUsername => "Username already taken.".to_owned(),
            ServerError::ConstraintViolation => "Constraint violation.".to_owned(),
            ServerError::HashingFailure => "Argonautica Error".to_owned(),
            ServerError::PoolExhausted => "r2d2 Error".to_owned(),
            ServerError::ConfigurationError => "Environment Error".to_owned(),
            ServerError::StoreFailure => "Diesel Error".to_owned(),
        }
    }

    /// Whether the process may go on serving requests after this error:
    /// everything but a `ConfigurationError` fails only the request at hand.
    pub fn recoverable(&self) -> (yes: bool)
        ensures
            yes == self.is_recoverable(),
    {
        match self {
            ServerError::ConfigurationError => false,
            _ => true,
        }
    }
}

/// A fault of the backing store surfaces as the error that `of_store_fault`
/// names.
impl From<StoreFault> for ServerError {
    fn from(fault: StoreFault) -> (err: ServerError) {
        match fault {
            StoreFault::NotFound => ServerError::NotFound,
            StoreFault::UniqueViolation => ServerError::DuplicateUsername,
            StoreFault::ForeignKeyViolation => ServerError::ConstraintViolation,
            StoreFault::Other => ServerError::StoreFailure,
        }
    }
}

impl vstd::std_specs::convert::FromSpecImpl<StoreFault> for ServerError {
    open spec fn obeys_from_spec() -> bool {
        true
    }

    open spec fn from_spec(fault: StoreFault) -> ServerError {
        ServerError::of_store_fault(fault)
    }
}

/// `r2d2::Error`, which the pool returns when it could hand out no
/// connection before its timeout. Nothing is read from it.
#[verifier::external_type_specification]
#[verifier::external_body]
pub struct ExPoolError(r2d2::Error);

/// Whatever the pool reports, the request could not get a connection.
impl From<r2d2::Error> for ServerError {
    fn from(err: r2d2::Error) -> (e: ServerError) {
        ServerError::PoolExhausted
    }
}

impl vstd::std_specs::convert::FromSpecImpl<r2d2::Error> for ServerError {
    open spec fn obeys_from_spec() -> bool {
        true
    }

    open spec fn from_spec(err: r2d2::Error) -> ServerError {
        ServerError::PoolExhausted
    }
}

/// `diesel::result::Error`, the ways in which a query can fail.
#[verifier::external_type_specification]
#[verifier::external_body]
pub struct ExQueryError(diesel::result::Error);

/// The fault that a `diesel::result::Error` stands for. It depends on the
/// variant of the error alone: `NotFound` is `StoreFault::NotFound`, a
/// `DatabaseError` of kind `UniqueViolation` or `ForeignKeyViolation` is the
/// fault of that name, and every other error is `StoreFault::Other`.
pub uninterp spec fn store_fault_of(err: diesel::result::Error) -> StoreFault;

/// Tells the variants of `diesel::result::Error` apart, and within
/// `DatabaseError` the kinds `UniqueViolation` and `ForeignKeyViolation` of
/// `diesel::result::DatabaseErrorKind`. The contract gives the result the
/// name `store_fault_of`; that the name means what its comment says rests on
/// the arms of this match.
#[verifier::external_body]
fn store_fault(err: &diesel::result::Error) -> (fault: StoreFault)
    ensures
        fault == store_fault_of(*err),
{
    match err {
        diesel::result::Error::NotFound => StoreFault::NotFound,
        diesel::result::Error::DatabaseError(
            diesel::result::DatabaseErrorKind::UniqueViolation,
            _,
        ) => StoreFault::UniqueViolation,
        diesel::result::Error::DatabaseError(
            diesel::result::DatabaseErrorKind::ForeignKeyViolation,
            _,
        ) => StoreFault::ForeignKeyViolation,
        _ => StoreFault::Other,
    }
}

/// A failed query surfaces as the error of the fault it stands for: a query
/// that found no row as `NotFound`, a unique violation as
/// `DuplicateUsername`, a foreign key violation as `ConstraintViolation`,
/// and everything else as `StoreFailure`.
impl From<diesel::result::Error> for ServerError {
    fn from(err: diesel::result::Error) -> (e: ServerError)
        ensures
            e == ServerError::of_store_fault(store_fault_of(err)),
    {
        let fault = store_fault(&err);
        ServerError::from(fault)
    }
}

impl vstd::std_specs::convert::FromSpecImpl<diesel::result::Error> for ServerError {
    open spec fn obeys_from_spec() -> bool {
        true
    }

    open spec fn from_spec(err: diesel::result::Error) -> ServerError {
        ServerError::of_store_fault(store_fault_of(err))
    }
}

} // verus!
