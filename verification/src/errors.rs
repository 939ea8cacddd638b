//! The failures that an operation can end in, and how each is shown to a caller.

use vstd::prelude::*;
use vstd::string::*;

verus! {

/// The class of a failure, as a caller should understand it.
#[derive(Clone, Copy, Debug, PartialEq, Eq, Structural)]
pub enum Kind {
    /// Credentials or token were not accepted.
    Authentication,
    /// The token is fine, the role is not enough.
    Authorization,
    /// The request is malformed.
    Validation,
    /// The request contradicts the stored state.
    Conflict,
    /// The account is banned.
    Banned,
    /// The store or the hasher failed.
    Internal,
}

impl Kind {
    /// The HTTP status of the class. Each class has one; a conflict has one
    /// that no other class has.
    pub open spec fn status(self) -> u16 {
        match self {
            Kind::Authentication => 401,
            Kind::Authorization => 403,
            Kind::Validation => 400,
            Kind::Conflict => 409,
            Kind::Banned => 401,
            Kind::Internal => 500,
        }
    }

    /// The HTTP status of the class.
    pub fn status_code(self) -> (status: u16)
        ensures
            status == self.status(),
    {
        match self {
            Kind::Authentication => 401,
            Kind::Authorization => 403,
            Kind::Validation => 400,
            Kind::Conflict => 409,
            Kind::Banned => 401,
            Kind::Internal => 500,
        }
    }
}

#[derive(Debug, PartialEq, Eq)]
pub enum Error {
    Pool,
    Page,
    Banned,
    Payload,
    Upgraded,
    PriorBan,
    NotBanned,
    Parameter,
    InvalidOpt,
    NotUpgraded,
    CredsFormat,
    UserNotFound,
    NoPermission,
    DBTransaction,
    UsernameTaken,
    TokenDuration,
    PaymentDetails,
    /// The random source failed, or the derivation of a password hash.
    Hasher,
    DbError(String),
}

/// The SQLSTATE code with which the store reports a broken uniqueness rule.
pub open spec fn unique_violation() -> Seq<char> {
    "23505"@
}

/// The error that a store failure with the given SQLSTATE code becomes.
pub open spec fn store_failure(code: Option<String>) -> Error {
    match code {
        None => Error::UserNotFound,
        Some(c) => if c@ == unique_violation() {
            Error::UsernameTaken
        } else {
            Error::DbError(c)
        },
    }
}

impl Error {
    /// The text shown to the caller.
    pub open spec fn message(&self) -> Seq<char> {
        match self {
            Error::Pool => "Database Unreachable"@,
            Error::Page => "Nonexistent Page"@,
            Error::Banned => "Account Banned"@,
            Error::Payload => "Invalid Payload"@,
            Error::Upgraded => "Account Already Upgraded"@,
            Error::Parameter => "Invalid Parameter"@,
            Error::InvalidOpt => "Invalid Option"@,
            Error::PriorBan => "User Already Banned"@,
            Error::NotBanned => "User Is Not Banned"@,
            Error::NotUpgraded => "Account Is Not Upgraded"@,
            Error::CredsFormat => "Credential Format Requirements"@,
            Error::DBTransaction => "Interal Server Error"@,
            Error::UserNotFound => "Supplied Values Dont Match A User"@,
            Error::NoPermission => "Unauthorized"@,
            Error::UsernameTaken => "Username Taken"@,
            Error::TokenDuration => "Duration Not Met"@,
            Error::PaymentDetails => "Payment Details Formatting"@,
            Error::Hasher => "Internal Server Error"@,
            Error::DbError(code) => "Database Error: "@ + code@,
        }
    }

    /// The HTTP status that goes with the failure: that of its class.
    pub open spec fn status(&self) -> u16 {
        self.class().status()
    }

    /// The class of the failure.
    pub open spec fn class(&self) -> Kind {
        match self {
            Error::Pool | Error::DBTransaction | Error::Hasher | Error::DbError(_) => Kind::Internal,
            Error::Page
            | Error::Payload
            | Error::Parameter
            | Error::InvalidOpt
            | Error::CredsFormat
            | Error::TokenDuration
            | Error::PaymentDetails => Kind::Validation,
            Error::Upgraded | Error::PriorBan | Error::NotBanned | Error::UsernameTaken => Kind::Conflict,
            Error::NotUpgraded | Error::NoPermission => Kind::Authorization,
            Error::UserNotFound => Kind::Authentication,
            Error::Banned => Kind::Banned,
        }
    }

    pub fn info(&self) -> (text: String)
        ensures
            text@ == self.message(),
    {
        match self {
            Error::Pool => String::from_str("Database Unreachable"),
            Error::Page => String::from_str("Nonexistent Page"),
            Error::Banned => String::from_str("Account Banned"),
            Error::Payload => String::from_str("Invalid Payload"),
            Error::Upgraded => String::from_str("Account Already Upgraded"),
            Error::Parameter => String::from_str("Invalid Parameter"),
            Error::InvalidOpt => String::from_str("Invalid Option"),
            Error::PriorBan => String::from_str("User Already Banned"),
            Error::NotBanned => String::from_str("User Is Not Banned"),
            Error::NotUpgraded => String::from_str("Account Is Not Upgraded"),
            Error::CredsFormat => String::from_str("Credential Format Requirements"),
            Error::DBTransaction => String::from_str("Interal Server Error"),
            Error::UserNotFound => String::from_str("Supplied Values Dont Match A User"),
            Error::NoPermission => String::from_str("Unauthorized"),
            Error::UsernameTaken => String::from_str("Username Taken"),
            Error::TokenDuration => String::from_str("Duration Not Met"),
            Error::PaymentDetails => String::from_str("Payment Details Formatting"),
            Error::Hasher => String::from_str("Internal Server Error"),
            Error::DbError(code) => String::from_str("Database Error: ").concat(code.as_str()),
        }
    }

    pub fn status_code(&self) -> (status: u16)
        ensures
            status == self.status(),
    {
        self.kind().status_code()
    }

    pub fn kind(&self) -> (kind: Kind)
        ensures
            kind == self.class(),
    {
        match self {
            Error::Pool | Error::DBTransaction | Error::Hasher | Error::DbError(_) => Kind::Internal,
            Error::Page
            | Error::Payload
            | Error::Parameter
            | Error::InvalidOpt
            | Error::CredsFormat
            | Error::TokenDuration
            | Error::PaymentDetails => Kind::Validation,
            Error::Upgraded | Error::PriorBan | Error::NotBanned | Error::UsernameTaken => Kind::Conflict,
            Error::NotUpgraded | Error::NoPermission => Kind::Authorization,
            Error::UserNotFound => Kind::Authentication,
            Error::Banned => Kind::Banned,
        }
    }
}

/// The error for a connection pool that hands out no connection.
pub fn pool_error() -> (error: Error)
    ensures
        error == Error::Pool,
{
    Error::Pool
}

/// The error for a transaction that could not be opened or committed.
pub fn transaction_error() -> (error: Error)
    ensures
        error == Error::DBTransaction,
{
    Error::DBTransaction
}

/// Classifies a failed statement by the SQLSTATE code that came with it, if
/// any: no code means that no row answered the query.
pub fn db_error(code: Option<String>) -> (error: Error)
    ensures
        error == store_failure(code),
{
    match code {
        None => Error::UserNotFound,
        Some(c) => {
            let unique = String::from_str("23505");
            if c == unique {
                Error::UsernameTaken
            } else {
                Error::DbError(c)
            }
        },
    }
}

/// A conflict has a status of its own. The four failures that contradict
/// the stored state, and they alone, are answered with 409: not with the
/// status of a malformed request, of a role that is not enough, of
/// credentials that were not accepted, or of a failure of the service.
pub proof fn conflict_has_its_own_status(error: Error)
    ensures
        error.class() == Kind::Conflict <==> (error == Error::UsernameTaken || error == Error::PriorBan
            || error == Error::NotBanned || error == Error::Upgraded),
        error.class() == Kind::Conflict <==> error.status() == 409,
        error.status() == 409 || error.status() == 400 || error.status() == 401 || error.status() == 403
            || error.status() == 500,
        Error::CredsFormat.status() == 400,
        Error::NoPermission.status() == 403,
        Error::UserNotFound.status() == 401,
        Error::Hasher.status() == 500,
{
}

} // verus!
