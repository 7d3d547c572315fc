//! The login orchestrator's decisions.
//!
//! The host shell performs the provider's asynchronous credential exchange
//! and emits notifications; this module fixes what the callbacks hand the
//! provider, which progress line each phase emits, how the attempt moves
//! through its states, and how its outcome lands in the account cache.

use crate::account::{state_after_set, Account, AccountCache};
use crate::errors::SessionError;
use vstd::prelude::*;
use vstd::string::StringExecFns;

verus! {

/// The provider's anisette URL: the configured host behind the fixed scheme.
pub fn anisette_url(server: &str) -> (r: String)
    ensures
        r@ == "https://"@ + server@,
{
    let mut url = String::from_str("https://");
    url.append(server);
    url
}

/// What the credential callback hands the provider: exactly the email and
/// password the caller supplied, never a failure.
pub fn credential_response(email: &String, password: &String) -> (r: Result<
    (String, String),
    String,
>)
    ensures
        r matches Ok(creds) && creds.0@ == email@ && creds.1@ == password@,
{
    Ok((email.clone(), password.clone()))
}

/// The phases a login attempt reports to the front end.
#[derive(Clone, Copy, Debug, PartialEq, Eq, Structural)]
pub enum LoginProgress {
    Starting,
    Succeeded,
    Failed,
}

pub open spec fn spec_progress_line(p: LoginProgress) -> Seq<char> {
    match p {
        LoginProgress::Starting => "Logging in..."@,
        LoginProgress::Succeeded => "Successfully logged in"@,
        LoginProgress::Failed => "Login failed or cancelled"@,
    }
}

/// The status line emitted for a phase of the attempt.
pub fn progress_line(p: LoginProgress) -> (r: String)
    ensures
        r@ == spec_progress_line(p),
{
    match p {
        LoginProgress::Starting => String::from_str("Logging in..."),
        LoginProgress::Succeeded => String::from_str("Successfully logged in"),
        LoginProgress::Failed => String::from_str("Login failed or cancelled"),
    }
}

/// Which progress notification a settled attempt emits: success reports
/// `Succeeded`, any failure reports `Failed`.
pub fn progress_for_outcome<T, E>(outcome: &Result<T, E>) -> (r: LoginProgress)
    ensures
        outcome is Ok ==> r is Succeeded,
        outcome is Err ==> r is Failed,
{
    match outcome {
        Ok(_) => LoginProgress::Succeeded,
        Err(_) => LoginProgress::Failed,
    }
}

/// The states of one login attempt.
#[derive(Clone, Copy, Debug, PartialEq, Eq, Structural)]
pub enum LoginState {
    Idle,
    CredentialSubmitted,
    AwaitingChallenge,
    Authenticated,
    Failed,
}

/// What can happen to an attempt in flight.
#[derive(Clone, Copy, Debug, PartialEq, Eq, Structural)]
pub enum LoginEvent {
    /// The caller submitted credentials to the provider.
    Submit,
    /// The provider demands a second factor.
    ChallengeRequired,
    /// The relay delivered a code back to the provider.
    ChallengeAnswered,
    /// The relay failed (timeout or disconnection).
    ChallengeFailed,
    /// The provider accepted the exchange.
    Accepted,
    /// The provider rejected the exchange.
    Rejected,
}

/// The attempt's transition relation. Challenges are sequential, never
/// concurrent: each one returns the attempt to `CredentialSubmitted`, from
/// where the provider may demand another or settle the attempt. `None` is
/// an impossible step.
pub open spec fn login_next(s: LoginState, e: LoginEvent) -> Option<LoginState> {
    match (s, e) {
        (LoginState::Idle, LoginEvent::Submit) => Some(LoginState::CredentialSubmitted),
        (LoginState::CredentialSubmitted, LoginEvent::ChallengeRequired) => Some(
            LoginState::AwaitingChallenge,
        ),
        (LoginState::AwaitingChallenge, LoginEvent::ChallengeAnswered) => Some(
            LoginState::CredentialSubmitted,
        ),
        (LoginState::AwaitingChallenge, LoginEvent::ChallengeFailed) => Some(LoginState::Failed),
        (LoginState::CredentialSubmitted, LoginEvent::Accepted) => Some(LoginState::Authenticated),
        (LoginState::CredentialSubmitted, LoginEvent::Rejected) => Some(LoginState::Failed),
        _ => None,
    }
}

/// Advances one login attempt by one event.
pub fn advance(s: LoginState, e: LoginEvent) -> (r: Option<LoginState>)
    ensures
        r == login_next(s, e),
{
    match (s, e) {
        (LoginState::Idle, LoginEvent::Submit) => Some(LoginState::CredentialSubmitted),
        (LoginState::CredentialSubmitted, LoginEvent::ChallengeRequired) => Some(
            LoginState::AwaitingChallenge,
        ),
        (LoginState::AwaitingChallenge, LoginEvent::ChallengeAnswered) => Some(
            LoginState::CredentialSubmitted,
        ),
        (LoginState::AwaitingChallenge, LoginEvent::ChallengeFailed) => Some(LoginState::Failed),
        (LoginState::CredentialSubmitted, LoginEvent::Accepted) => Some(LoginState::Authenticated),
        (LoginState::CredentialSubmitted, LoginEvent::Rejected) => Some(LoginState::Failed),
        _ => None,
    }
}

/// `Authenticated` and `Failed` are terminal: no event moves an attempt out
/// of them, so a settled attempt can never be revived.
pub proof fn lemma_terminal_states(e: LoginEvent)
    ensures
        login_next(LoginState::Authenticated, e) is None,
        login_next(LoginState::Failed, e) is None,
{
}

/// Only the provider's acceptance authenticates: the single step that ends
/// in `Authenticated` starts in `CredentialSubmitted` on `Accepted`. The
/// cache is therefore written only for an attempt the provider accepted.
pub proof fn lemma_only_acceptance_authenticates(s: LoginState, e: LoginEvent)
    ensures
        login_next(s, e) == Some(LoginState::Authenticated) ==> (s is CredentialSubmitted
            && e is Accepted),
{
}

/// Settles a login attempt into the cache. On success the account is stored
/// — overwriting whatever the slot held — and its identifier is returned;
/// on failure the cache is left exactly as it was and the rendered detail
/// is surfaced as `LoginFailed`. The call succeeds if and only if the
/// provider's outcome was success.
pub fn complete_login(cache: &mut AccountCache, outcome: Result<Account, String>) -> (r: Result<
    String,
    SessionError,
>)
    ensures
        match outcome {
            Ok(account) => final(cache)@ == state_after_set(old(cache)@, account@) && (
            r matches Ok(id) && id@ == account@),
            Err(detail) => final(cache)@ == old(cache)@ && (r matches Err(e)
                && e matches SessionError::LoginFailed(d) && d@ == detail@),
        },
{
    match outcome {
        Ok(account) => {
            let id = account.apple_id.clone();
            cache.set(account);
            Ok(id)
        },
        Err(detail) => Err(SessionError::LoginFailed(detail)),
    }
}

} // verus!
