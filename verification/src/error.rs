use vstd::prelude::*;
use vstd::string::StringExecFns;

verus! {

/// Why an authentication attempt failed.
///
/// Absence of credentials is never reported through this type: a strategy that
/// finds nothing to look at answers `Ok(None)`.
#[derive(Debug, Clone, PartialEq, Eq)]
pub enum AuthError {
    /// A delegated operation failed, or the provider does not offer it.
    Provider(String),
    /// The presented credentials were examined and rejected.
    InvalidCredentials,
    /// The provider refused the authorization code.
    InvalidCode,
    /// The transport to a provider or key endpoint failed.
    Network,
    /// The session store failed.
    Session(String),
    /// Signing or verifying a token failed.
    Token(String),
    /// The state returned to the callback is not the one that was issued.
    CsrfMismatch,
}

impl AuthError {
    /// The text shown for this error.
    pub open spec fn spec_message(self) -> Seq<char> {
        match self {
            AuthError::Provider(detail) => "Provider error: "@ + detail@,
            AuthError::InvalidCredentials => "Invalid credentials"@,
            AuthError::InvalidCode => "Invalid code"@,
            AuthError::Network => "Network error"@,
            AuthError::Session(detail) => "Session error: "@ + detail@,
            AuthError::Token(detail) => "Token error: "@ + detail@,
            AuthError::CsrfMismatch => "CSRF state mismatch"@,
        }
    }

    /// Renders the error as a line of text.
    pub fn message(&self) -> (text: String)
        ensures
            text@ == self.spec_message(),
    {
        match self {
            AuthError::Provider(detail) => String::from_str("Provider error: ").concat(
                detail.as_str(),
            ),
            AuthError::InvalidCredentials => String::from_str("Invalid credentials"),
            AuthError::InvalidCode => String::from_str("Invalid code"),
            AuthError::Network => String::from_str("Network error"),
            AuthError::Session(detail) => String::from_str("Session error: ").concat(
                detail.as_str(),
            ),
            AuthError::Token(detail) => String::from_str("Token error: ").concat(detail.as_str()),
            AuthError::CsrfMismatch => String::from_str("CSRF state mismatch"),
        }
    }
}

} // verus!
