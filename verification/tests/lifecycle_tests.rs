use keysync::config::{Config, ProviderConfig};
use keysync::errors::OAuthError;
use keysync::lifecycle::{
    complete, complete_at, needs_refresh, plan_ensure_valid, refresh_at, step,
    token_record_from_grant, login_success_payload, AuthEvent, AuthState, GrantResponse,
    TokenPlan, REFRESH_MARGIN,
};
use keysync::provider::Provider;

fn stored(access: &str, refresh: &str, expiry: i64) -> ProviderConfig {
    ProviderConfig {
        access_token: access.to_string(),
        refresh_token: refresh.to_string(),
        expiry_timestamp: expiry,
    }
}

fn grant(access: &str, refresh: Option<&str>, expires_in: i64) -> GrantResponse {
    GrantResponse {
        access_token: access.to_string(),
        refresh_token: refresh.map(|s| s.to_string()),
        expires_in,
    }
}

#[test]
fn margin_is_five_minutes() {
    assert_eq!(REFRESH_MARGIN, 300);
}

#[test]
fn refresh_due_exactly_at_margin() {
    let now = 1_000_000;
    assert!(needs_refresh(now + 300, now));
    assert!(!needs_refresh(now + 301, now));
    assert!(needs_refresh(now - 50, now));
    assert!(needs_refresh(now, now));
}

#[test]
fn plan_refreshes_within_margin() {
    // stored expiry = now + 100: exactly one refresh, with the stored token
    let now = 50_000;
    let t = stored("acc", "ref", now + 100);
    let mut refresh_calls = 0;
    let plan = plan_ensure_valid(&t, now);
    match plan {
        TokenPlan::RefreshWith(rt) => {
            refresh_calls += 1;
            assert_eq!(rt, "ref");
        }
        TokenPlan::UseCurrent(_) => {}
    }
    assert_eq!(refresh_calls, 1);
}

#[test]
fn plan_keeps_current_token_below_margin() {
    // stored expiry = now + 1000: zero refresh calls, token unchanged
    let now = 50_000;
    let t = stored("acc", "ref", now + 1000);
    let mut refresh_calls = 0;
    let plan = plan_ensure_valid(&t, now);
    match plan {
        TokenPlan::RefreshWith(_) => refresh_calls += 1,
        TokenPlan::UseCurrent(tok) => assert_eq!(tok, "acc"),
    }
    assert_eq!(refresh_calls, 0);
    // repeated within the margin: same answer
    assert_eq!(
        plan_ensure_valid(&t, now),
        TokenPlan::UseCurrent("acc".to_string())
    );
}

#[test]
fn record_is_stamped_with_call_time_plus_lifetime() {
    let now = 1_700_000_000;
    let r = token_record_from_grant(grant("tok", Some("ref"), 3600), now).unwrap();
    assert_eq!(r.access_token, "tok");
    assert_eq!(r.refresh_token, "ref");
    assert_eq!(r.expiry_timestamp, now + 3600);
}

#[test]
fn record_requires_refresh_token() {
    assert!(token_record_from_grant(grant("tok", None, 3600), 1000).is_none());
}

#[test]
fn complete_persists_whole_record() {
    // provider answered {access_token:"tok", refresh_token:"ref", expires_in:3600}
    let now = 1_700_000_000;
    let mut config = Config::default();
    let r = complete_at(&mut config, Provider::GitHub, grant("tok", Some("ref"), 3600), now);
    let t = r.unwrap();
    assert_eq!(t.expiry_timestamp, now + 3600);
    // an immediate read of the configuration shows the new record
    let g = config.accounts.get(Provider::GitHub);
    assert_eq!(g.access_token, "tok");
    assert_eq!(g.refresh_token, "ref");
    assert_eq!(g.expiry_timestamp, now + 3600);
    // other providers untouched
    assert_eq!(config.accounts.get(Provider::Discord).access_token, "");
    assert_eq!(config.accounts.get(Provider::Google).expiry_timestamp, 0);
}

#[test]
fn complete_fails_without_refresh_token() {
    let mut config = Config::default();
    let before = config.clone();
    let r = complete_at(&mut config, Provider::GitHub, grant("tok", None, 3600), 1000);
    assert_eq!(r, Err(OAuthError::TokenExchangeFailed));
    assert_eq!(config, before);
}

#[test]
fn refresh_updates_stored_record_once() {
    // ensure_valid with stored expiry = now + 100: the refresh runs and
    // overwrites the record wholesale
    let now = 90_000;
    let mut config = Config::default();
    config
        .store_tokens(Provider::GitHub, stored("old-acc", "old-ref", now + 100));
    let plan = plan_ensure_valid(config.accounts.get(Provider::GitHub), now);
    let rt = match plan {
        TokenPlan::RefreshWith(rt) => rt,
        TokenPlan::UseCurrent(tok) => panic!("expected a refresh, got {}", tok),
    };
    assert_eq!(rt, "old-ref");
    let r = refresh_at(
        &mut config,
        Provider::GitHub,
        grant("new-acc", Some("new-ref"), 7200),
        now,
    );
    let t = r.unwrap();
    assert_eq!(t.access_token, "new-acc");
    let g = config.accounts.get(Provider::GitHub);
    assert_eq!(g.access_token, "new-acc");
    assert_eq!(g.refresh_token, "new-ref");
    assert_eq!(g.expiry_timestamp, now + 7200);
}

#[test]
fn refresh_failure_uses_refresh_error() {
    let mut config = Config::default();
    let r = refresh_at(&mut config, Provider::Google, grant("a", None, 10), 1000);
    assert_eq!(r, Err(OAuthError::TokenRefreshFailed));
    assert_eq!(
        OAuthError::TokenRefreshFailed.message(),
        "failed to refresh the access token"
    );
}

#[test]
fn complete_against_real_clock() {
    let mut config = Config::default();
    let r = complete(&mut config, Provider::Discord, grant("tok", Some("ref"), 3600));
    let t = r.unwrap();
    assert_eq!(t.access_token, "tok");
    assert_eq!(t.refresh_token, "ref");
    // the record is stamped with the clock read during the call
    assert!(t.expiry_timestamp > 3600);
    assert_eq!(config.accounts.get(Provider::Discord).access_token, "tok");
}

#[test]
fn state_machine_walks_the_login_path() {
    let s = AuthState::Unauthenticated;
    let s = step(s, AuthEvent::Initiate);
    assert_eq!(s, AuthState::Authenticating);
    let s = step(s, AuthEvent::ExchangeSucceeded);
    assert_eq!(s, AuthState::Authenticated);
    let s = step(s, AuthEvent::RefreshStarted);
    assert_eq!(s, AuthState::Refreshing);
    let s = step(s, AuthEvent::RefreshSucceeded);
    assert_eq!(s, AuthState::Authenticated);
}

#[test]
fn hard_failures_return_to_unauthenticated() {
    let s = step(AuthState::Authenticating, AuthEvent::ExchangeFailed);
    assert_eq!(s, AuthState::Unauthenticated);
    let s = step(AuthState::Refreshing, AuthEvent::RefreshFailed);
    assert_eq!(s, AuthState::Unauthenticated);
    let s = step(AuthState::Authenticating, AuthEvent::FlowTimedOut);
    assert_eq!(s, AuthState::Unauthenticated);
}

#[test]
fn login_notification_names_the_provider() {
    assert_eq!(
        login_success_payload(Provider::GitHub).message,
        "GitHub login successful"
    );
    assert_eq!(
        login_success_payload(Provider::Google).message,
        "Google login successful"
    );
}

#[test]
fn default_config_is_empty_and_well_formed() {
    let c = Config::default();
    assert_eq!(c.accounts.get(Provider::GitHub).access_token, "");
    assert_eq!(c.accounts.get(Provider::GitHub).expiry_timestamp, 0);
    assert!(c.user_profiles.is_empty());
    assert!(c.user.is_none());
}
