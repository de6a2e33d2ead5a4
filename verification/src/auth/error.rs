//! The ways in which authentication fails.

use vstd::prelude::*;

verus! {

/// Why a credential was not accepted. The set is closed: a caller learns
/// whether an attempt was made at all, and nothing of why an attempt failed.
#[derive(Clone, Copy, Debug, PartialEq, Eq, Structural)]
pub enum AuthenticationError {
    /// A credential was presented and did not hold up.
    InvalidCredentials,
    /// No credential was presented, or none of a known scheme.
    InvalidAuthMethod,
}

impl AuthenticationError {
    /// The sentence shown to a person for this failure.
    pub open spec fn message_text(self) -> Seq<char> {
        match self {
            AuthenticationError::InvalidCredentials => "Invalid Authentication Credentials"@,
            AuthenticationError::InvalidAuthMethod => "Authentication method was not valid"@,
        }
    }

    /// The word by which a program tells this failure apart.
    pub open spec fn name_text(self) -> Seq<char> {
        match self {
            AuthenticationError::InvalidCredentials => "invalid_credentials"@,
            AuthenticationError::InvalidAuthMethod => "invalid_auth_method"@,
        }
    }

    pub fn message(&self) -> (text: &'static str)
        ensures
            text@ == self.message_text(),
    {
        match self {
            AuthenticationError::InvalidCredentials => "Invalid Authentication Credentials",
            AuthenticationError::InvalidAuthMethod => "Authentication method was not valid",
        }
    }

    pub fn error_name(&self) -> (text: &'static str)
        ensures
            text@ == self.name_text(),
    {
        match self {
            AuthenticationError::InvalidCredentials => "invalid_credentials",
            AuthenticationError::InvalidAuthMethod => "invalid_auth_method",
        }
    }
}

} // verus!
