//! Error taxonomy of the session core, and the model of provider failures.

use vstd::prelude::*;
use vstd::string::StringExecFns;

verus! {

/// Provider status code that signals the cached session has expired from
/// prolonged inactivity and the user must log in again.
pub const EXPIRY_CODE: i64 = -22411;

/// A failure reported by the external provider while listing teams.
/// Two layers of the provider can carry a numeric status code; anything
/// else is kept only as its rendered detail.
#[derive(Clone, Debug)]
pub enum ProviderError {
    Auth(i64, String),
    DeveloperSession(i64, String),
    Other(String),
}

impl ProviderError {
    /// The optional provider status code carried by this failure.
    pub open spec fn spec_code(&self) -> Option<i64> {
        match self {
            ProviderError::Auth(code, _) => Some(*code),
            ProviderError::DeveloperSession(code, _) => Some(*code),
            ProviderError::Other(_) => None,
        }
    }

    pub fn code(&self) -> (r: Option<i64>)
        ensures
            r == self.spec_code(),
    {
        match self {
            ProviderError::Auth(code, _) => Some(*code),
            ProviderError::DeveloperSession(code, _) => Some(*code),
            ProviderError::Other(_) => None,
        }
    }

    /// Whether this failure is the re-authenticate signal.
    pub open spec fn spec_is_expiry(&self) -> bool {
        self.spec_code() == Some(EXPIRY_CODE)
    }

    /// Centralised check for the re-authenticate signal, so no caller
    /// repeats the code comparison per variant.
    pub fn is_expiry(&self) -> (r: bool)
        ensures
            r == self.spec_is_expiry(),
    {
        match self.code() {
            Some(code) => code == EXPIRY_CODE,
            None => false,
        }
    }
}

/// How a challenge wait can fail: the bounded wait ran out, or the sending
/// side of the relay channel was dropped before a code arrived.
#[derive(Clone, Copy, Debug, PartialEq, Eq, Structural)]
pub enum ChallengeError {
    Timeout,
    Disconnected,
}

impl ChallengeError {
    pub open spec fn spec_message(&self) -> Seq<char> {
        match self {
            ChallengeError::Timeout => "2FA cancelled or timed out"@,
            ChallengeError::Disconnected => "2FA disconnected"@,
        }
    }

    /// Human-readable line that a login failure carries for this outcome.
    pub fn message(&self) -> (r: String)
        ensures
            r@ == self.spec_message(),
    {
        match self {
            ChallengeError::Timeout => String::from_str("2FA cancelled or timed out"),
            ChallengeError::Disconnected => String::from_str("2FA disconnected"),
        }
    }
}

/// Every failure the session core reports to its callers.
#[derive(Clone, Debug)]
pub enum SessionError {
    /// No account is cached; recoverable by logging in.
    NotLoggedIn,
    /// The credential exchange or the challenge relay failed; carries the
    /// rendered detail of the underlying failure.
    LoginFailed(String),
    /// Team listing failed with the provider's expiry code; the cache has
    /// been cleared and the caller must log in again.
    SessionExpired(ProviderError),
    /// Team listing failed for any other reason; the cache is untouched.
    TeamListFailed(ProviderError),
    /// The provider returned an empty team list.
    NoTeams,
}

impl SessionError {
    /// A challenge failure surfaces as a login failure carrying its message.
    pub fn from_challenge(e: ChallengeError) -> (r: SessionError)
        ensures
            r matches SessionError::LoginFailed(d) && d@ == e.spec_message(),
    {
        SessionError::LoginFailed(e.message())
    }
}

} // verus!
