//! The challenge relay: one multi-factor code exchange per login attempt.
//!
//! The host shell emits the "challenge-required" notification, registers a
//! one-shot listener that forwards the "challenge-response" payload into a
//! single-producer channel, and performs the bounded wait on that channel.
//! This module owns the decisions: how the raw payload is normalized, how
//! each way the wait can end is classified, and that the listener
//! registration is torn down on every exit path.

use crate::errors::ChallengeError;
use vstd::prelude::*;
use vstd::string::StrSliceExecFns;

verus! {

/// How long one challenge waits for the front end's response, in seconds.
/// Fixed, not restarted on partial input.
pub const CHALLENGE_TIMEOUT_SECS: u64 = 120;

/// `s` with every leading occurrence of `c` removed.
pub open spec fn trim_leading(s: Seq<char>, c: char) -> Seq<char>
    decreases s.len(),
{
    if s.len() > 0 && s[0] == c {
        trim_leading(s.drop_first(), c)
    } else {
        s
    }
}

/// `s` with every trailing occurrence of `c` removed.
pub open spec fn trim_trailing(s: Seq<char>, c: char) -> Seq<char>
    decreases s.len(),
{
    if s.len() > 0 && s.last() == c {
        trim_trailing(s.drop_last(), c)
    } else {
        s
    }
}

/// The payload with the transport's quoting artifacts stripped: every
/// leading and every trailing double quote removed.
pub open spec fn strip_quotes(s: Seq<char>) -> Seq<char> {
    trim_trailing(trim_leading(s, '"'), '"')
}

proof fn lemma_trim_leading_prefix(s: Seq<char>, c: char, i: int)
    requires
        0 <= i <= s.len(),
        forall|j: int| 0 <= j < i ==> s[j] == c,
        i < s.len() ==> s[i] != c,
    ensures
        trim_leading(s, c) == s.subrange(i, s.len() as int),
    decreases i,
{
    if i == 0 {
        assert(s.subrange(0, s.len() as int) =~= s);
    } else {
        let rest = s.drop_first();
        assert(forall|j: int| 0 <= j < i - 1 ==> rest[j] == c);
        lemma_trim_leading_prefix(rest, c, i - 1);
        assert(rest.subrange(i - 1, rest.len() as int) =~= s.subrange(i, s.len() as int));
    }
}

proof fn lemma_trim_trailing_suffix(s: Seq<char>, c: char, k: int)
    requires
        0 <= k <= s.len(),
        forall|j: int| k <= j < s.len() ==> s[j] == c,
        k > 0 ==> s[k - 1] != c,
    ensures
        trim_trailing(s, c) == s.subrange(0, k),
    decreases s.len(),
{
    if k == s.len() {
        assert(s.subrange(0, k) =~= s);
    } else {
        let rest = s.drop_last();
        assert(s.last() == c);
        lemma_trim_trailing_suffix(rest, c, k);
        assert(rest.subrange(0, k) =~= s.subrange(0, k));
    }
}

/// Strips the transport's quoting artifacts from a received payload:
/// every leading and trailing double quote is removed, nothing else.
pub fn normalize_challenge_payload(payload: &str) -> (r: String)
    ensures
        r@ == strip_quotes(payload@),
{
    let n = payload.unicode_len();
    let mut start: usize = 0;
    while start < n && payload.get_char(start) == '"'
        invariant
            0 <= start <= n == payload@.len(),
            forall|j: int| 0 <= j < start ==> payload@[j] == '"',
        decreases n - start,
    {
        start = start + 1;
    }
    let mut end: usize = n;
    while end > start && payload.get_char(end - 1) == '"'
        invariant
            start <= end <= n == payload@.len(),
            forall|j: int| end <= j < n ==> payload@[j] == '"',
        decreases end,
    {
        end = end - 1;
    }
    let trimmed = payload.substring_char(start, end);
    proof {
        lemma_trim_leading_prefix(payload@, '"', start as int);
        let mid = payload@.subrange(start as int, n as int);
        assert(forall|j: int| end - start <= j < mid.len() ==> mid[j] == '"');
        lemma_trim_trailing_suffix(mid, '"', end - start);
        assert(mid.subrange(0, end - start) =~= payload@.subrange(start as int, end as int));
    }
    trimmed.to_owned()
}

/// How the bounded wait for the front end's response ended: a payload
/// arrived, the timeout ran out, or the sending side was dropped.
pub enum ChallengeOutcome {
    Received(String),
    TimedOut,
    Disconnected,
}

/// One challenge exchange, modelled as a scoped resource: while a relay
/// exists and is listening, the one-shot response listener is registered
/// with the front end, and resolving the exchange always tears it down.
pub struct ChallengeRelay {
    registered: bool,
}

impl ChallengeRelay {
    /// Whether the response listener is still registered.
    pub closed spec fn is_listening(&self) -> bool {
        self.registered
    }

    /// Begins one exchange: the host shell has emitted the
    /// "challenge-required" notification and registered the listener.
    pub fn begin() -> (r: ChallengeRelay)
        ensures
            r.is_listening(),
    {
        ChallengeRelay { registered: true }
    }

    /// Resolves the exchange from how the wait ended. On every path —
    /// response received, timeout, disconnection — the listener is
    /// de-registered, so no dangling listener survives into a later
    /// challenge. A received payload is returned normalized; a timeout
    /// or a disconnection is classified as the matching failure.
    pub fn resolve(&mut self, outcome: ChallengeOutcome) -> (r: Result<String, ChallengeError>)
        requires
            old(self).is_listening(),
        ensures
            !final(self).is_listening(),
            match outcome {
                ChallengeOutcome::Received(payload) => r matches Ok(code) && code@
                    == strip_quotes(payload@),
                ChallengeOutcome::TimedOut => r == Err::<String, ChallengeError>(
                    ChallengeError::Timeout,
                ),
                ChallengeOutcome::Disconnected => r == Err::<String, ChallengeError>(
                    ChallengeError::Disconnected,
                ),
            },
    {
        self.registered = false;
        match outcome {
            ChallengeOutcome::Received(payload) => Ok(
                normalize_challenge_payload(payload.as_str()),
            ),
            ChallengeOutcome::TimedOut => Err(ChallengeError::Timeout),
            ChallengeOutcome::Disconnected => Err(ChallengeError::Disconnected),
        }
    }
}

} // verus!
