use vstd::prelude::*;

verus! {

/// The failures that the vault core reports to its callers.
#[derive(Debug, Clone, PartialEq, Eq)]
pub enum CpassError {
    /// The request was invalid or malformed (a missing or badly formed token header).
    InvalidRequest(String),
    /// The email and password did not match; which of the two was wrong is not said.
    InvalidUsernameOrPassword,
    /// A registration used an email that is already taken.
    UserAlreadyExists(String),
    /// A token whose signature, encoding or expiry did not check out.
    InvalidToken,
    /// The storage layer failed; the text is its own message.
    DatabaseError(String),
    /// The password hashing or key derivation primitive failed.
    HashingError,
    /// A stored secret could not be opened: wrong passphrase or altered bytes.
    AuthenticationFailed,
    /// The record does not exist, or is hidden from the caller.
    NotFound(String),
    /// The record exists but belongs to someone else.
    Forbidden,
}

/// Transport-neutral class of a failure.
#[derive(Debug, Clone, Copy, PartialEq, Eq, Structural)]
pub enum ErrorClass {
    InvalidArgument,
    Unauthenticated,
    Conflict,
    Unavailable,
    Internal,
    NotFound,
    Forbidden,
}

impl ErrorClass {
    /// The HTTP status code of this class.
    pub fn http_status(&self) -> (r: u16)
        ensures
            r == match *self {
                ErrorClass::InvalidArgument => 400u16,
                ErrorClass::Unauthenticated => 401u16,
                ErrorClass::Forbidden => 403u16,
                ErrorClass::NotFound => 404u16,
                ErrorClass::Conflict => 409u16,
                ErrorClass::Internal => 500u16,
                ErrorClass::Unavailable => 503u16,
            },
    {
        match *self {
            ErrorClass::InvalidArgument => 400,
            ErrorClass::Unauthenticated => 401,
            ErrorClass::Forbidden => 403,
            ErrorClass::NotFound => 404,
            ErrorClass::Conflict => 409,
            ErrorClass::Internal => 500,
            ErrorClass::Unavailable => 503,
        }
    }

    /// The gRPC status code of this class.
    pub fn rpc_code(&self) -> (r: u8)
        ensures
            r == match *self {
                ErrorClass::InvalidArgument => 3u8,
                ErrorClass::NotFound => 5u8,
                ErrorClass::Conflict => 6u8,
                ErrorClass::Forbidden => 7u8,
                ErrorClass::Internal => 13u8,
                ErrorClass::Unavailable => 14u8,
                ErrorClass::Unauthenticated => 16u8,
            },
    {
        match *self {
            ErrorClass::InvalidArgument => 3,
            ErrorClass::NotFound => 5,
            ErrorClass::Conflict => 6,
            ErrorClass::Forbidden => 7,
            ErrorClass::Internal => 13,
            ErrorClass::Unavailable => 14,
            ErrorClass::Unauthenticated => 16,
        }
    }
}

/// The class that each failure is reported under, on either transport.
pub open spec fn class_of(e: CpassError) -> ErrorClass {
    match e {
        CpassError::InvalidRequest(_) => ErrorClass::InvalidArgument,
        CpassError::InvalidUsernameOrPassword => ErrorClass::Unauthenticated,
        CpassError::UserAlreadyExists(_) => ErrorClass::Conflict,
        CpassError::InvalidToken => ErrorClass::Unauthenticated,
        CpassError::DatabaseError(_) => ErrorClass::Unavailable,
        CpassError::HashingError => ErrorClass::Internal,
        CpassError::AuthenticationFailed => ErrorClass::Unauthenticated,
        CpassError::NotFound(_) => ErrorClass::NotFound,
        CpassError::Forbidden => ErrorClass::Forbidden,
    }
}

impl CpassError {
    /// The class that this failure is reported under.
    pub fn class(&self) -> (r: ErrorClass)
        ensures
            r == class_of(*self),
    {
        match self {
            CpassError::InvalidRequest(_) => ErrorClass::InvalidArgument,
            CpassError::InvalidUsernameOrPassword => ErrorClass::Unauthenticated,
            CpassError::UserAlreadyExists(_) => ErrorClass::Conflict,
            CpassError::InvalidToken => ErrorClass::Unauthenticated,
            CpassError::DatabaseError(_) => ErrorClass::Unavailable,
            CpassError::HashingError => ErrorClass::Internal,
            CpassError::AuthenticationFailed => ErrorClass::Unauthenticated,
            CpassError::NotFound(_) => ErrorClass::NotFound,
            CpassError::Forbidden => ErrorClass::Forbidden,
        }
    }
}

} // verus!
