use twitch_discord_moderation::credential::{Credential, CredentialCell, RefreshTurn};
use twitch_discord_moderation::device::{DeviceAction, DeviceAuth, DeviceEvent, DeviceStage};
use twitch_discord_moderation::provider::{
    check_status, credential_source, service_token, AuthError, CredentialSource,
};
use twitch_discord_moderation::retry::{backoff_secs, RetryDecision, RetryState};
use twitch_discord_moderation::token::Secret;

fn cred(expires_at: u64, refreshable: bool) -> Credential {
    Credential {
        access_token: Secret::new("t"),
        refreshable,
        expires_at,
        scopes: vec![],
    }
}

#[test]
fn refresh_only_within_margin() {
    let now = 1000;
    assert!(cred(now + 30, true).needs_refresh(now, 60));
    assert!(!cred(now + 60, true).needs_refresh(now, 60));
    assert!(!cred(now + 30, false).needs_refresh(now, 60));
    assert!(cred(now - 5, true).needs_refresh(now, 60));
    assert_eq!(cred(now + 30, true).remaining(now), 30);
    assert_eq!(cred(now - 5, true).remaining(now), 0);
}

#[test]
fn scenario_reconnect_refreshes_exactly_once() {
    let now = 5000;
    let mut cell = CredentialCell::new(cred(now + 30, true));
    let mut refreshes = 0;
    for _ in 0..2 {
        if cell.credential.needs_refresh(now, 60) {
            let seen = cell.generation;
            assert_eq!(cell.request_refresh(seen), RefreshTurn::Perform);
            refreshes += 1;
            cell.complete_refresh(cred(now + 3600, true));
        }
    }
    assert_eq!(refreshes, 1);
    assert_eq!(cell.credential.expires_at, now + 3600);
}

#[test]
fn concurrent_refresh_requests_share_one_refresh() {
    let mut cell = CredentialCell::new(cred(10, true));
    let seen = cell.generation;
    assert_eq!(cell.request_refresh(seen), RefreshTurn::Perform);
    assert_eq!(cell.request_refresh(seen), RefreshTurn::Wait);
    cell.complete_refresh(cred(99, true));
    assert_eq!(cell.request_refresh(seen), RefreshTurn::Fresh);
    assert_eq!(cell.credential.expires_at, 99);
    assert_eq!(cell.generation, 1);
    assert!(!cell.refreshing);
}

#[test]
fn abandoned_refresh_can_be_retried() {
    let mut cell = CredentialCell::new(cred(10, true));
    assert_eq!(cell.request_refresh(0), RefreshTurn::Perform);
    cell.abandon_refresh();
    assert_eq!(cell.request_refresh(0), RefreshTurn::Perform);
}

#[test]
fn source_order() {
    assert_eq!(credential_source(true, true, true), Ok(CredentialSource::Static));
    assert_eq!(credential_source(false, true, true), Ok(CredentialSource::Service));
    assert_eq!(credential_source(false, false, true), Ok(CredentialSource::DeviceFlow));
    assert_eq!(credential_source(false, false, false), Err(AuthError::NoSource));
}

#[test]
fn service_token_extraction() {
    assert_eq!(service_token(200, r#"{"access_token":"abc"}"#, "/access_token"), Ok("abc".to_string()));
    assert_eq!(service_token(200, r#"{"a":{"b":"tok"}}"#, "/a/b"), Ok("tok".to_string()));
    assert_eq!(service_token(200, r#"{"other":"abc"}"#, "/access_token"), Err(AuthError::MissingField));
    assert_eq!(service_token(200, r#"{"access_token":5}"#, "/access_token"), Err(AuthError::NotAString));
    assert_eq!(service_token(200, "nope", "/access_token"), Err(AuthError::NotJson));
    assert_eq!(service_token(404, r#"{"access_token":"abc"}"#, "/access_token"), Err(AuthError::ServiceStatus(404)));
    assert_eq!(service_token(503, "", "/x"), Err(AuthError::ServiceStatus(503)));
    assert_eq!(check_status(204), Ok(()));
    assert_eq!(check_status(302), Err(AuthError::ServiceStatus(302)));
}

fn scopes(names: &[&str]) -> Vec<String> {
    names.iter().map(|s| s.to_string()).collect()
}

#[test]
fn device_flow_reuses_a_valid_stored_token() {
    let mut d = DeviceAuth::new(scopes(&["a", "b"]), 60);
    assert_eq!(d.step(DeviceEvent::Stored(true)), DeviceAction::Validate);
    assert_eq!(d.step(DeviceEvent::Token(3600, scopes(&["b", "a", "c"]))), DeviceAction::Persist);
    assert_eq!(d.step(DeviceEvent::Persisted), DeviceAction::Finish);
    assert_eq!(d.stage, DeviceStage::Done);
}

#[test]
fn device_flow_authorizes_when_nothing_is_stored() {
    let mut d = DeviceAuth::new(scopes(&["a"]), 60);
    assert_eq!(d.step(DeviceEvent::Stored(false)), DeviceAction::Authorize);
    assert_eq!(d.step(DeviceEvent::Token(3600, scopes(&["a"]))), DeviceAction::Validate);
    assert_eq!(d.step(DeviceEvent::StepFailed), DeviceAction::Authorize);
    assert_eq!(d.step(DeviceEvent::Token(30, scopes(&["a"]))), DeviceAction::Refresh);
    assert_eq!(d.step(DeviceEvent::Token(3600, scopes(&[]))), DeviceAction::Authorize);
    assert_eq!(d.stage, DeviceStage::AuthorizingForScopes);
    assert_eq!(d.step(DeviceEvent::Token(3600, scopes(&["a"]))), DeviceAction::Persist);
    assert_eq!(d.step(DeviceEvent::StepFailed), DeviceAction::Fail);
    assert_eq!(d.stage, DeviceStage::Failed);
}

#[test]
fn backoff_doubles_up_to_thirty() {
    assert_eq!(backoff_secs(2), 4);
    assert_eq!(backoff_secs(3), 8);
    assert_eq!(backoff_secs(4), 16);
    assert_eq!(backoff_secs(5), 30);
    assert_eq!(backoff_secs(9), 30);
    assert_eq!(backoff_secs(0), 1);
}

#[test]
fn retry_policy() {
    let mut r = RetryState::new();
    assert_eq!(r.on_failure(1000), RetryDecision::GiveUp);
    let mut r = RetryState::new();
    assert_eq!(r.on_failure(10_000), RetryDecision::RetryNow);
    assert_eq!(r.on_failure(10_000), RetryDecision::RetryAfter(4));
    assert_eq!(r.on_failure(10_000), RetryDecision::RetryAfter(8));
    assert_eq!(r.times, 3);
    assert_eq!(r.on_failure(400_000), RetryDecision::RetryNow);
    assert_eq!(r.times, 1);
    for _ in 0..8 {
        assert!(matches!(r.on_failure(10_000), RetryDecision::RetryAfter(_)));
    }
    assert_eq!(r.on_failure(10_000), RetryDecision::GiveUp);
    assert_eq!(r.times, 10);
}

#[test]
fn short_token_after_scope_shortfall_is_refreshed() {
    let mut d = DeviceAuth::new(scopes(&["a", "b"]), 60);
    assert_eq!(d.step(DeviceEvent::Stored(true)), DeviceAction::Validate);
    assert_eq!(d.step(DeviceEvent::Token(3600, scopes(&["a"]))), DeviceAction::Authorize);
    assert_eq!(d.step(DeviceEvent::Token(30, scopes(&["a", "b"]))), DeviceAction::Refresh);
    assert_eq!(d.stage, DeviceStage::RefreshingForScopes);
    assert_eq!(d.step(DeviceEvent::Token(3600, scopes(&["a", "b"]))), DeviceAction::Persist);
    assert_eq!(d.step(DeviceEvent::Persisted), DeviceAction::Finish);
}

#[test]
fn long_token_after_scope_shortfall_is_stored() {
    let mut d = DeviceAuth::new(scopes(&["a"]), 60);
    d.step(DeviceEvent::Stored(true));
    assert_eq!(d.step(DeviceEvent::Token(3600, scopes(&[]))), DeviceAction::Authorize);
    assert_eq!(d.step(DeviceEvent::Token(61, scopes(&["a"]))), DeviceAction::Persist);
}

#[test]
fn failed_refresh_of_stored_token_falls_back_to_authorization() {
    let mut d = DeviceAuth::new(scopes(&["a"]), 60);
    d.step(DeviceEvent::Stored(true));
    assert_eq!(d.step(DeviceEvent::Token(10, scopes(&["a"]))), DeviceAction::Refresh);
    assert_eq!(d.step(DeviceEvent::StepFailed), DeviceAction::Authorize);
    assert_eq!(d.stage, DeviceStage::AuthorizingAgain);
    assert_eq!(d.step(DeviceEvent::Token(5, scopes(&["a"]))), DeviceAction::Refresh);
    assert_eq!(d.stage, DeviceStage::RefreshingAuthorized);
    assert_eq!(d.step(DeviceEvent::StepFailed), DeviceAction::Fail);
}
