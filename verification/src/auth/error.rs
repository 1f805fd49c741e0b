//! Failures of authentication.

use crate::protocol::error::{ProtocolError, ProtocolErrorView};
use vstd::prelude::*;
use vstd::string::*;

verus! {

/// What can go wrong while authenticating.
#[derive(Debug, Clone, PartialEq, Eq)]
pub enum AuthError {
    /// The user refused to give credentials.
    UserDeclined,
    /// The credentials do not fit the method.
    InvalidCredentials,
    /// The method is not available.
    UnsupportedMethod(String),
    /// The exchange took too long.
    Timeout,
    /// The operating system could not vouch for the user.
    OsAuthFailure(String),
    /// The secret store failed; a missing entry is no failure.
    SecretStoreError(String),
    /// System policy forbids the attempt.
    PolicyBlocked,
    /// The protocol layer failed.
    Protocol(ProtocolError),
    /// Anything else.
    Other(String),
}

/// The mathematical reading of an [`AuthError`].
pub enum AuthErrorView {
    UserDeclined,
    InvalidCredentials,
    UnsupportedMethod(Seq<char>),
    Timeout,
    OsAuthFailure(Seq<char>),
    SecretStoreError(Seq<char>),
    PolicyBlocked,
    Protocol(ProtocolErrorView),
    Other(Seq<char>),
}

impl AuthErrorView {
    /// The text shown for the error.
    pub open spec fn message(self) -> Seq<char> {
        match self {
            AuthErrorView::UserDeclined => "User declined authentication"@,
            AuthErrorView::InvalidCredentials => "Invalid credentials"@,
            AuthErrorView::UnsupportedMethod(method) => "Authentication method not supported: "@
                + method,
            AuthErrorView::Timeout => "Authentication timed out"@,
            AuthErrorView::OsAuthFailure(detail) => "Failed to interact with OS authentication: "@
                + detail,
            AuthErrorView::SecretStoreError(detail) => "Failed to load credentials: "@ + detail,
            AuthErrorView::PolicyBlocked => "Authentication blocked by system policy"@,
            AuthErrorView::Protocol(error) => "Protocol error: "@ + error.message(),
            AuthErrorView::Other(detail) => "Authentication error: "@ + detail,
        }
    }
}

impl View for AuthError {
    type V = AuthErrorView;

    open spec fn view(&self) -> AuthErrorView {
        match self {
            AuthError::UserDeclined => AuthErrorView::UserDeclined,
            AuthError::InvalidCredentials => AuthErrorView::InvalidCredentials,
            AuthError::UnsupportedMethod(method) => AuthErrorView::UnsupportedMethod(method@),
            AuthError::Timeout => AuthErrorView::Timeout,
            AuthError::OsAuthFailure(detail) => AuthErrorView::OsAuthFailure(detail@),
            AuthError::SecretStoreError(detail) => AuthErrorView::SecretStoreError(detail@),
            AuthError::PolicyBlocked => AuthErrorView::PolicyBlocked,
            AuthError::Protocol(error) => AuthErrorView::Protocol(error@),
            AuthError::Other(detail) => AuthErrorView::Other(detail@),
        }
    }
}

impl AuthError {
    /// The text shown for the error.
    pub fn to_string(&self) -> (r: String)
        ensures
            r@ == self@.message(),
    {
        match self {
            AuthError::UserDeclined => String::from_str("User declined authentication"),
            AuthError::InvalidCredentials => String::from_str("Invalid credentials"),
            AuthError::UnsupportedMethod(method) => String::from_str(
                "Authentication method not supported: ",
            ).concat(method.as_str()),
            AuthError::Timeout => String::from_str("Authentication timed out"),
            AuthError::OsAuthFailure(detail) => String::from_str(
                "Failed to interact with OS authentication: ",
            ).concat(detail.as_str()),
            AuthError::SecretStoreError(detail) => String::from_str(
                "Failed to load credentials: ",
            ).concat(detail.as_str()),
            AuthError::PolicyBlocked => String::from_str(
                "Authentication blocked by system policy",
            ),
            AuthError::Protocol(error) => {
                let inner = error.to_string();
                String::from_str("Protocol error: ").concat(inner.as_str())
            },
            AuthError::Other(detail) => String::from_str("Authentication error: ").concat(
                detail.as_str(),
            ),
        }
    }
}

impl From<ProtocolError> for AuthError {
    fn from(error: ProtocolError) -> (r: AuthError) {
        AuthError::Protocol(error)
    }
}

impl vstd::std_specs::convert::FromSpecImpl<ProtocolError> for AuthError {
    open spec fn obeys_from_spec() -> bool {
        true
    }

    open spec fn from_spec(error: ProtocolError) -> AuthError {
        AuthError::Protocol(error)
    }
}

} // verus!
