//! The device-authorization mode as a state machine: a stored token is
//! reused when it validates, a fresh authorization is asked for when it does
//! not or when its refresh fails, every token obtained or refreshed with less
//! than the safety margin left is refreshed once more, one that lacks a
//! required scope is replaced, and the result is stored.
use vstd::prelude::*;
use crate::subscriptions::{has_all, has_all_scopes};

verus! {

/// Where the device-authorization mode stands.
#[derive(Debug, Clone, Copy, PartialEq, Eq, Structural)]
pub enum DeviceStage {
    /// Reading the stored token pair.
    ReadingStored,
    /// No usable pair was stored: authorizing, to validate the result.
    AuthorizingFirst,
    /// Validating (or refreshing through its refresh token) a token pair.
    Validating,
    /// The pair did not validate: authorizing anew.
    AuthorizingAgain,
    /// Refreshing a validated token that is about to expire; if that fails,
    /// authorizing anew.
    Refreshing,
    /// Refreshing a token of a fresh authorization that is about to expire.
    RefreshingAuthorized,
    /// The token lacks a required scope: authorizing with all of them.
    AuthorizingForScopes,
    /// Refreshing the token of that authorization, which is about to expire.
    RefreshingForScopes,
    /// Storing the access and refresh tokens.
    Persisting,
    Done,
    Failed,
}

/// What a step of the mode reported.
#[derive(Debug)]
pub enum DeviceEvent {
    /// The stored pair was read and decoded (`true`), or was missing or
    /// malformed (`false`).
    Stored(bool),
    /// The step gave a token, valid for this many more seconds, with these scopes.
    Token(u64, Vec<String>),
    /// The step failed.
    StepFailed,
    /// The pair was stored.
    Persisted,
}

/// What the caller does next.
#[derive(Debug, Clone, Copy, PartialEq, Eq, Structural)]
pub enum DeviceAction {
    /// Validate the token pair at hand, refreshing it if it has expired.
    Validate,
    /// Run the interactive device authorization.
    Authorize,
    /// Refresh the token at hand.
    Refresh,
    /// Store the access and refresh tokens.
    Persist,
    /// Hand the token at hand to the caller.
    Finish,
    /// Give up with the error of the last step.
    Fail,
}

/// After a token was had: refresh it (in stage `refreshing`) when less than
/// `margin` seconds are left, else check its scopes.
pub open spec fn after_token(
    refreshing: DeviceStage,
    expires_in: u64,
    scopes: Seq<String>,
    required: Seq<String>,
    margin: u64,
) -> (DeviceStage, DeviceAction) {
    if expires_in < margin {
        (refreshing, DeviceAction::Refresh)
    } else {
        after_refresh(scopes, required)
    }
}

/// Once the token has enough time left: store it if it has every required
/// scope, else authorize anew.
pub open spec fn after_refresh(scopes: Seq<String>, required: Seq<String>) -> (DeviceStage, DeviceAction) {
    if has_all_scopes(scopes, required) {
        (DeviceStage::Persisting, DeviceAction::Persist)
    } else {
        (DeviceStage::AuthorizingForScopes, DeviceAction::Authorize)
    }
}

/// The transition function of the device-authorization mode.
pub open spec fn device_step_spec(stage: DeviceStage, e: DeviceEvent, required: Seq<String>, margin: u64) -> (
    DeviceStage,
    DeviceAction,
) {
    match (stage, e) {
        (DeviceStage::ReadingStored, DeviceEvent::Stored(true)) => (DeviceStage::Validating, DeviceAction::Validate),
        (DeviceStage::ReadingStored, DeviceEvent::Stored(false)) => (DeviceStage::AuthorizingFirst, DeviceAction::Authorize),
        (DeviceStage::AuthorizingFirst, DeviceEvent::Token(_, _)) => (DeviceStage::Validating, DeviceAction::Validate),
        (DeviceStage::Validating, DeviceEvent::Token(t, s)) => after_token(DeviceStage::Refreshing, t, s@, required, margin),
        (DeviceStage::Validating, DeviceEvent::StepFailed) => (DeviceStage::AuthorizingAgain, DeviceAction::Authorize),
        (DeviceStage::AuthorizingAgain, DeviceEvent::Token(t, s)) => after_token(
            DeviceStage::RefreshingAuthorized,
            t,
            s@,
            required,
            margin,
        ),
        (DeviceStage::Refreshing, DeviceEvent::Token(_, s)) => after_refresh(s@, required),
        (DeviceStage::Refreshing, DeviceEvent::StepFailed) => (DeviceStage::AuthorizingAgain, DeviceAction::Authorize),
        (DeviceStage::RefreshingAuthorized, DeviceEvent::Token(_, s)) => after_refresh(s@, required),
        (DeviceStage::AuthorizingForScopes, DeviceEvent::Token(t, _)) => if t < margin {
            (DeviceStage::RefreshingForScopes, DeviceAction::Refresh)
        } else {
            (DeviceStage::Persisting, DeviceAction::Persist)
        },
        (DeviceStage::RefreshingForScopes, DeviceEvent::Token(_, _)) => (DeviceStage::Persisting, DeviceAction::Persist),
        (DeviceStage::Persisting, DeviceEvent::Persisted) => (DeviceStage::Done, DeviceAction::Finish),
        (DeviceStage::Done, _) => (DeviceStage::Done, DeviceAction::Finish),
        _ => (DeviceStage::Failed, DeviceAction::Fail),
    }
}

/// The device-authorization mode: its stage, the scopes it must end with,
/// and the least validity (seconds) a token may be handed out with.
pub struct DeviceAuth {
    pub stage: DeviceStage,
    pub required_scopes: Vec<String>,
    pub margin: u64,
}

impl DeviceAuth {
    /// The mode at its start, about to read the stored pair.
    pub fn new(required_scopes: Vec<String>, margin: u64) -> (r: DeviceAuth)
        ensures
            r.stage == DeviceStage::ReadingStored,
            r.required_scopes@ == required_scopes@,
            r.margin == margin,
    {
        DeviceAuth { stage: DeviceStage::ReadingStored, required_scopes, margin }
    }

    fn after_refresh(&mut self, scopes: &Vec<String>) -> (r: DeviceAction)
        ensures
            (final(self).stage, r) == after_refresh(scopes@, old(self).required_scopes@),
            final(self).required_scopes == old(self).required_scopes,
            final(self).margin == old(self).margin,
    {
        if has_all(scopes, &self.required_scopes) {
            self.stage = DeviceStage::Persisting;
            DeviceAction::Persist
        } else {
            self.stage = DeviceStage::AuthorizingForScopes;
            DeviceAction::Authorize
        }
    }

    fn after_token(&mut self, refreshing: DeviceStage, expires_in: u64, scopes: &Vec<String>) -> (r: DeviceAction)
        ensures
            (final(self).stage, r) == after_token(refreshing, expires_in, scopes@, old(self).required_scopes@, old(self).margin),
            final(self).required_scopes == old(self).required_scopes,
            final(self).margin == old(self).margin,
    {
        if expires_in < self.margin {
            self.stage = refreshing;
            DeviceAction::Refresh
        } else {
            self.after_refresh(scopes)
        }
    }

    /// Moves the mode by what its last step reported, and says what the
    /// caller does next.
    pub fn step(&mut self, e: DeviceEvent) -> (r: DeviceAction)
        ensures
            (final(self).stage, r) == device_step_spec(old(self).stage, e, old(self).required_scopes@, old(self).margin),
            final(self).required_scopes == old(self).required_scopes,
            final(self).margin == old(self).margin,
    {
        match (self.stage, e) {
            (DeviceStage::ReadingStored, DeviceEvent::Stored(true)) => {
                self.stage = DeviceStage::Validating;
                DeviceAction::Validate
            },
            (DeviceStage::ReadingStored, DeviceEvent::Stored(false)) => {
                self.stage = DeviceStage::AuthorizingFirst;
                DeviceAction::Authorize
            },
            (DeviceStage::AuthorizingFirst, DeviceEvent::Token(_, _)) => {
                self.stage = DeviceStage::Validating;
                DeviceAction::Validate
            },
            (DeviceStage::Validating, DeviceEvent::Token(t, s)) => self.after_token(DeviceStage::Refreshing, t, &s),
            (DeviceStage::Validating, DeviceEvent::StepFailed) => {
                self.stage = DeviceStage::AuthorizingAgain;
                DeviceAction::Authorize
            },
            (DeviceStage::AuthorizingAgain, DeviceEvent::Token(t, s)) => self.after_token(
                DeviceStage::RefreshingAuthorized,
                t,
                &s,
            ),
            (DeviceStage::Refreshing, DeviceEvent::Token(_, s)) => self.after_refresh(&s),
            (DeviceStage::Refreshing, DeviceEvent::StepFailed) => {
                self.stage = DeviceStage::AuthorizingAgain;
                DeviceAction::Authorize
            },
            (DeviceStage::RefreshingAuthorized, DeviceEvent::Token(_, s)) => self.after_refresh(&s),
            (DeviceStage::AuthorizingForScopes, DeviceEvent::Token(t, _)) => {
                if t < self.margin {
                    self.stage = DeviceStage::RefreshingForScopes;
                    DeviceAction::Refresh
                } else {
                    self.stage = DeviceStage::Persisting;
                    DeviceAction::Persist
                }
            },
            (DeviceStage::RefreshingForScopes, DeviceEvent::Token(_, _)) => {
                self.stage = DeviceStage::Persisting;
                DeviceAction::Persist
            },
            (DeviceStage::Persisting, DeviceEvent::Persisted) => {
                self.stage = DeviceStage::Done;
                DeviceAction::Finish
            },
            (DeviceStage::Done, _) => DeviceAction::Finish,
            _ => {
                self.stage = DeviceStage::Failed;
                DeviceAction::Fail
            },
        }
    }
}

/// Whatever the stage, a token that a validation or an authorization gives
/// with less than `margin` seconds left is refreshed before anything else.
pub proof fn lemma_short_token_is_refreshed(
    stage: DeviceStage,
    t: u64,
    scopes: Vec<String>,
    required: Seq<String>,
    margin: u64,
)
    requires
        t < margin,
        stage == DeviceStage::Validating || stage == DeviceStage::AuthorizingAgain || stage
            == DeviceStage::AuthorizingForScopes,
    ensures
        device_step_spec(stage, DeviceEvent::Token(t, scopes), required, margin).1 == DeviceAction::Refresh,
{
}

/// A token that arrives with at least `margin` seconds left is not refreshed.
pub proof fn lemma_long_token_is_not_refreshed(
    stage: DeviceStage,
    t: u64,
    scopes: Vec<String>,
    required: Seq<String>,
    margin: u64,
)
    requires
        t >= margin,
        stage == DeviceStage::Validating || stage == DeviceStage::AuthorizingAgain || stage
            == DeviceStage::AuthorizingForScopes,
    ensures
        device_step_spec(stage, DeviceEvent::Token(t, scopes), required, margin).1 != DeviceAction::Refresh,
{
}

/// After a refresh, the mode goes on to the scope check or to storing the
/// token; it never asks for a second refresh of the same token.
pub proof fn lemma_refreshed_once(stage: DeviceStage, t: u64, scopes: Vec<String>, required: Seq<String>, margin: u64)
    requires
        stage == DeviceStage::Refreshing || stage == DeviceStage::RefreshingAuthorized || stage
            == DeviceStage::RefreshingForScopes,
    ensures
        device_step_spec(stage, DeviceEvent::Token(t, scopes), required, margin).1 != DeviceAction::Refresh,
{
}

} // verus!
