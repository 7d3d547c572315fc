//! The session factory: from a cached account and the provider's answer to
//! a team-listing request, either a developer session scoped to a team, or
//! a classified failure.
//!
//! The host shell performs the team-listing network call; this module fixes
//! what happens to its result: empty lists are rejected before any indexing,
//! the provider's expiry code clears the account cache and is reported apart
//! from every other failure, and any other failure leaves the cache alone.

use crate::account::{state_after_invalidate, Account, AccountCache};
use crate::errors::{ProviderError, SessionError};
use vstd::prelude::*;

verus! {

/// An authorization scope returned by the provider.
#[derive(Clone, Debug)]
pub struct Team {
    pub team_id: String,
}

impl View for Team {
    type V = Seq<char>;

    open spec fn view(&self) -> Seq<char> {
        self.team_id@
    }
}

impl Team {
    pub fn new(team_id: String) -> (r: Team)
        ensures
            r@ == team_id@,
    {
        Team { team_id }
    }
}

/// A session scoped to one of the account's authorization teams. Built on
/// demand and never cached, so a caller's exposure to a stale team
/// selection is bounded to one request.
#[derive(Debug)]
pub struct DeveloperSession {
    pub account: Account,
    pub team: Option<Team>,
}

impl DeveloperSession {
    /// A fresh session bound to `account`, with no team selected yet.
    pub fn new(account: Account) -> (r: DeveloperSession)
        ensures
            r.account == account,
            r.team is None,
    {
        DeveloperSession { account, team: None }
    }

    /// Binds the session to `team`.
    pub fn set_team(&mut self, team: Team)
        ensures
            final(self).account == old(self).account,
            final(self).team == Some(team),
    {
        self.team = Some(team);
    }
}

/// Settles a team-listing outcome into a developer session.
///
/// On a successful listing the cache is untouched: an empty list is
/// `NoTeams`, otherwise the session is bound to the first team returned
/// (documented policy, not a claim of best choice). A failure carrying the
/// provider's expiry code clears the cache and is reported as
/// `SessionExpired`; every other failure is `TeamListFailed` and leaves the
/// cache exactly as it was.
pub fn finish_developer_session(
    cache: &mut AccountCache,
    session: DeveloperSession,
    teams: Result<Vec<Team>, ProviderError>,
) -> (r: Result<DeveloperSession, SessionError>)
    ensures
        match teams {
            Ok(ts) => final(cache)@ == old(cache)@ && (if ts@.len() == 0 {
                r matches Err(e) && e is NoTeams
            } else {
                r matches Ok(s) && s.account == session.account && s.team == Some(ts@[0])
            }),
            Err(e) => if e.spec_is_expiry() {
                final(cache)@ == state_after_invalidate(old(cache)@) && (r matches Err(err)
                    && err matches SessionError::SessionExpired(pe) && pe == e)
            } else {
                final(cache)@ == old(cache)@ && (r matches Err(err)
                    && err matches SessionError::TeamListFailed(pe) && pe == e)
            },
        },
{
    match teams {
        Ok(mut ts) => {
            if ts.len() == 0 {
                Err(SessionError::NoTeams)
            } else {
                let first = ts.remove(0);
                let mut session = session;
                session.set_team(first);
                Ok(session)
            }
        },
        Err(e) => {
            if e.is_expiry() {
                cache.invalidate();
                Err(SessionError::SessionExpired(e))
            } else {
                Err(SessionError::TeamListFailed(e))
            }
        },
    }
}

} // verus!
