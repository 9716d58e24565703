//! The credential's lifecycle: when it needs a refresh, and a cell that lets
//! concurrent triggers share one refresh.
use vstd::prelude::*;
use crate::token::Secret;

verus! {

/// An access credential.
#[derive(Clone)]
pub struct Credential {
    /// The access token itself.
    pub access_token: Secret,
    /// Whether a refresh mechanism is configured for it.
    pub refreshable: bool,
    /// When it expires, in seconds on the caller's clock.
    pub expires_at: u64,
    /// The scopes granted to it.
    pub scopes: Vec<String>,
}

/// The credential expires within `margin` seconds of `now` and can be refreshed.
pub open spec fn needs_refresh_spec(c: Credential, now: u64, margin: u64) -> bool {
    c.refreshable && (c.expires_at as int) < now + margin
}

impl Credential {
    /// Seconds of validity left at `now`; none once it has expired.
    pub fn remaining(&self, now: u64) -> (r: u64)
        ensures
            r == if self.expires_at > now { self.expires_at - now } else { 0 },
    {
        if self.expires_at > now {
            self.expires_at - now
        } else {
            0
        }
    }

    /// Whether the credential is to be refreshed before it is used at `now`:
    /// it can be, and less than `margin` seconds of validity are left.
    pub fn needs_refresh(&self, now: u64, margin: u64) -> (r: bool)
        ensures
            r == needs_refresh_spec(*self, now, margin),
    {
        self.refreshable && (self.expires_at < now || self.expires_at - now < margin)
    }
}

/// What a trigger of a refresh is to do.
#[derive(Debug, Clone, Copy, PartialEq, Eq, Structural)]
pub enum RefreshTurn {
    /// Perform the refresh, then hand its result to `complete_refresh`.
    Perform,
    /// Another trigger is refreshing: wait for it, then ask again.
    Wait,
    /// The credential was refreshed since this trigger looked: use it.
    Fresh,
}

/// A credential shared by concurrent activities, with the generation that
/// counts its refreshes and whether one is under way.
pub struct CredentialCell {
    pub credential: Credential,
    pub generation: u64,
    pub refreshing: bool,
}

/// A trigger that saw generation `seen` asks for a refresh.
pub open spec fn request_spec(c: CredentialCell, seen: u64) -> (CredentialCell, RefreshTurn) {
    if c.generation != seen {
        (c, RefreshTurn::Fresh)
    } else if c.refreshing {
        (c, RefreshTurn::Wait)
    } else {
        (CredentialCell { refreshing: true, ..c }, RefreshTurn::Perform)
    }
}

/// The refresh under way ends with `fresh`.
pub open spec fn complete_spec(c: CredentialCell, fresh: Credential) -> CredentialCell {
    CredentialCell { credential: fresh, generation: (c.generation + 1) as u64, refreshing: false }
}

impl CredentialCell {
    /// A cell that holds `credential`, at generation zero.
    pub fn new(credential: Credential) -> (r: CredentialCell)
        ensures
            r == (CredentialCell { credential, generation: 0, refreshing: false }),
    {
        CredentialCell { credential, generation: 0, refreshing: false }
    }

    /// A trigger that saw generation `seen` asks for a refresh. Only one
    /// trigger at a time is told to perform it.
    pub fn request_refresh(&mut self, seen: u64) -> (r: RefreshTurn)
        ensures
            (*final(self), r) == request_spec(*old(self), seen),
    {
        if self.generation != seen {
            RefreshTurn::Fresh
        } else if self.refreshing {
            RefreshTurn::Wait
        } else {
            self.refreshing = true;
            RefreshTurn::Perform
        }
    }

    /// The refresh under way ends with `fresh`, which replaces the
    /// credential whole.
    pub fn complete_refresh(&mut self, fresh: Credential)
        requires
            old(self).refreshing,
            old(self).generation < u64::MAX,
        ensures
            *final(self) == complete_spec(*old(self), fresh),
    {
        self.credential = fresh;
        self.generation = self.generation + 1;
        self.refreshing = false;
    }

    /// The refresh under way failed: the credential stays, and a later
    /// trigger may try again.
    pub fn abandon_refresh(&mut self)
        ensures
            *final(self) == (CredentialCell { refreshing: false, ..*old(self) }),
    {
        self.refreshing = false;
    }
}

/// Two triggers that saw the same generation ask for a refresh at once:
/// only the first performs it, and once it completes the second is told to
/// use the refreshed credential, which is what both then observe.
pub proof fn lemma_concurrent_refresh_once(c: CredentialCell, fresh: Credential)
    requires
        !c.refreshing,
        c.generation < u64::MAX,
    ensures
        ({
            let (c1, t1) = request_spec(c, c.generation);
            let (c2, t2) = request_spec(c1, c.generation);
            let c3 = complete_spec(c2, fresh);
            let (c4, t3) = request_spec(c3, c.generation);
            &&& t1 == RefreshTurn::Perform
            &&& t2 == RefreshTurn::Wait
            &&& t3 == RefreshTurn::Fresh
            &&& c4 == c3
            &&& c4.credential == fresh
            &&& !c4.refreshing
        }),
{
}

/// A credential that needs a refresh before a reconnect needs no second one
/// once a refresh has given it at least `margin` seconds: the reconnect
/// triggers exactly one refresh.
pub proof fn lemma_one_refresh_before_reconnect(c: Credential, fresh: Credential, now: u64, margin: u64)
    requires
        needs_refresh_spec(c, now, margin),
        fresh.expires_at >= now + margin,
    ensures
        !needs_refresh_spec(fresh, now, margin),
{
}

} // verus!
