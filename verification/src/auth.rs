//! The credential manager's decision logic.
//!
//! The cache holds the access token and its expiry; the surrounding
//! application performs the actual token exchange and hands the clock
//! in as plain epoch seconds.  On each request the cache decides, in
//! one step, whether the caller may use the cached token, must await an
//! exchange already in flight, or must start the single new exchange.
//! At most one exchange is ever in flight: concurrent callers that find
//! one running are told to await it, never to start their own.

use vstd::prelude::*;

verus! {

/// A bearer token with its stated expiry, in seconds since the Unix
/// epoch.
#[derive(Clone, Debug, PartialEq, Eq)]
pub struct Token {
    pub access_token: String,
    pub expires_at: u64,
}

/// What a caller must do next, as decided by [`TokenCache::begin_request`].
pub enum TokenAction {
    /// The cached token is valid: attach it and proceed.
    UseToken(String),
    /// An exchange is already in flight: await its outcome, do not
    /// start another.
    AwaitRefresh,
    /// No valid token and no exchange in flight: this caller starts
    /// the one exchange.
    StartRefresh,
}

/// The kind of decision [`TokenCache::begin_request`] takes.
#[derive(Clone, Copy, Debug, PartialEq, Eq, Structural)]
pub enum ActionKind {
    UseTok,
    Await,
    Start,
}

/// The shared token cache of one Credential Manager.
pub struct TokenCache {
    /// The token of the last successful exchange, if any.
    pub token: Option<Token>,
    /// Whether a token exchange is currently in flight.
    pub refresh_in_flight: bool,
}

impl TokenCache {
    /// Whether the cached token may still be exposed at `now`: a token
    /// is never handed out at or past its stated expiry.
    pub open spec fn token_valid(self, now: u64) -> bool {
        self.token matches Some(t) && now < t.expires_at
    }

    /// The decision the cache takes for a request arriving at `now`.
    pub open spec fn spec_begin_kind(self, now: u64) -> ActionKind {
        if self.token_valid(now) {
            ActionKind::UseTok
        } else if self.refresh_in_flight {
            ActionKind::Await
        } else {
            ActionKind::Start
        }
    }

    /// The cache state after that decision.
    pub open spec fn spec_begin_state(self, now: u64) -> TokenCache {
        if self.spec_begin_kind(now) == ActionKind::Start {
            TokenCache { refresh_in_flight: true, ..self }
        } else {
            self
        }
    }

    /// An empty cache: no token, no exchange in flight.
    pub fn new() -> (r: TokenCache)
        ensures
            r.token is None,
            !r.refresh_in_flight,
    {
        TokenCache { token: None, refresh_in_flight: false }
    }

    /// Decides what the caller of one request must do, and records a
    /// started exchange.  A `UseToken` answer carries a token strictly
    /// before its expiry; `StartRefresh` is answered at most once until
    /// the exchange completes or fails.
    pub fn begin_request(&mut self, now: u64) -> (a: TokenAction)
        ensures
            *final(self) == old(self).spec_begin_state(now),
            match a {
                TokenAction::UseToken(s) => {
                    &&& old(self).spec_begin_kind(now) == ActionKind::UseTok
                    &&& old(self).token matches Some(t) && s@ == t.access_token@ && now
                        < t.expires_at
                },
                TokenAction::AwaitRefresh => old(self).spec_begin_kind(now) == ActionKind::Await,
                TokenAction::StartRefresh => old(self).spec_begin_kind(now) == ActionKind::Start,
            },
    {
        match &self.token {
            Some(t) => {
                if now < t.expires_at {
                    return TokenAction::UseToken(t.access_token.clone());
                }
            },
            None => {},
        }
        if self.refresh_in_flight {
            TokenAction::AwaitRefresh
        } else {
            self.refresh_in_flight = true;
            TokenAction::StartRefresh
        }
    }

    /// Records the outcome of a successful exchange: the new token
    /// replaces the old one and the in-flight mark is cleared.
    pub fn complete_refresh(&mut self, access_token: String, expires_at: u64)
        requires
            old(self).refresh_in_flight,
        ensures
            !final(self).refresh_in_flight,
            final(self).token matches Some(t) && t.access_token@ == access_token@ && t.expires_at
                == expires_at,
    {
        self.token = Some(Token { access_token, expires_at });
        self.refresh_in_flight = false;
    }

    /// Records a rejected exchange: the in-flight mark is cleared and
    /// the stale token is dropped, so the caller surfaces an
    /// authentication error and a later request starts a fresh
    /// exchange.
    pub fn fail_refresh(&mut self)
        requires
            old(self).refresh_in_flight,
        ensures
            !final(self).refresh_in_flight,
            final(self).token is None,
    {
        self.token = None;
        self.refresh_in_flight = false;
    }
}

/// A caller is never handed a token at or past its stated expiry.
pub proof fn lemma_no_stale_token(c: TokenCache, now: u64)
    ensures
        c.spec_begin_kind(now) == ActionKind::UseTok ==> (c.token matches Some(t) && now
            < t.expires_at),
{
}

/// Concurrent calls sharing one cache with an expired token trigger
/// exactly one exchange: the first such call starts it, and every call
/// that follows while it is in flight awaits it instead of starting
/// another.
pub proof fn lemma_single_refresh(c: TokenCache, now: u64)
    requires
        !c.token_valid(now),
        !c.refresh_in_flight,
    ensures
        c.spec_begin_kind(now) == ActionKind::Start,
        c.spec_begin_state(now).spec_begin_kind(now) == ActionKind::Await,
        c.spec_begin_state(now).spec_begin_state(now) == c.spec_begin_state(now),
{
}

} // verus!
