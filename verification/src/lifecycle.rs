//! The token lifecycle manager: turning grant responses into token records,
//! deciding when a refresh is due, and the per-provider state machine.

use vstd::prelude::*;

use crate::config::{Config, ProviderConfig};
use crate::errors::OAuthError;
use crate::provider::Provider;

verus! {

/// Seconds before expiry at which a stored token is already treated as
/// stale, so that a token handed out is valid for at least this long.
pub const REFRESH_MARGIN: i64 = 300;

/// Tokens obtained from a completed grant, stamped with the absolute expiry
/// instant (unix seconds).
#[derive(Clone, PartialEq, Debug)]
pub struct TokenData {
    pub access_token: String,
    pub refresh_token: String,
    pub expiry_timestamp: i64,
}

/// What a provider's token endpoint reported for a grant: the raw tokens and
/// the relative lifetime in seconds. A missing refresh token is possible and
/// is treated as a failure by the lifecycle manager, which depends on it for
/// silent renewal.
#[derive(Clone, PartialEq, Debug)]
pub struct GrantResponse {
    pub access_token: String,
    pub refresh_token: Option<String>,
    pub expires_in: i64,
}

/// A stored token must be refreshed when its expiry is within the safety
/// margin of `now`.
pub open spec fn refresh_due(expiry: int, now: int) -> bool {
    expiry <= now + REFRESH_MARGIN
}

/// Decide whether a token with the given expiry is due for refresh at `now`.
pub fn needs_refresh(expiry: i64, now: i64) -> (r: bool)
    ensures
        r == refresh_due(expiry as int, now as int),
{
    if now <= i64::MAX - REFRESH_MARGIN {
        expiry <= now + REFRESH_MARGIN
    } else {
        true
    }
}

/// Decision for `ensure_valid`: either the stored access token is still
/// comfortably valid and is returned unchanged, or a refresh-token grant
/// must run first, with the stored refresh token.
#[derive(PartialEq, Debug)]
pub enum TokenPlan {
    UseCurrent(String),
    RefreshWith(String),
}

/// The plan `ensure_valid` follows for a stored record at instant `now`.
pub open spec fn plan_spec(tokens: ProviderConfig, now: int) -> TokenPlan {
    if refresh_due(tokens.expiry_timestamp as int, now) {
        TokenPlan::RefreshWith(tokens.refresh_token)
    } else {
        TokenPlan::UseCurrent(tokens.access_token)
    }
}

/// `ensure_valid`'s decision step: refresh exactly when the stored expiry is
/// within the safety margin of `now`; otherwise hand back the stored access
/// token unchanged.
pub fn plan_ensure_valid(tokens: &ProviderConfig, now: i64) -> (r: TokenPlan)
    ensures
        r == plan_spec(*tokens, now as int),
{
    if needs_refresh(tokens.expiry_timestamp, now) {
        TokenPlan::RefreshWith(tokens.refresh_token.clone())
    } else {
        TokenPlan::UseCurrent(tokens.access_token.clone())
    }
}

/// Below the margin, `ensure_valid` is read-only and idempotent: at any two
/// instants at which the stored token is not yet due, the plan is the same —
/// use the stored access token unchanged, with no refresh call.
pub proof fn lemma_plan_stable_within_margin(tokens: ProviderConfig, now1: int, now2: int)
    requires
        now1 <= now2,
        !refresh_due(tokens.expiry_timestamp as int, now2),
    ensures
        plan_spec(tokens, now1) == plan_spec(tokens, now2),
        plan_spec(tokens, now1) == TokenPlan::UseCurrent(tokens.access_token),
{
}

/// The only way a token record is made: stamp the grant's relative lifetime
/// with the clock. A grant without a refresh token yields `None` — an
/// explicit failure, never a panic — because silent renewal depends on it.
pub fn token_record_from_grant(grant: GrantResponse, now: i64) -> (r: Option<TokenData>)
    requires
        0 <= grant.expires_in,
        now + grant.expires_in <= i64::MAX,
    ensures
        match r {
            Some(t) => grant.refresh_token is Some && t.access_token == grant.access_token
                && grant.refresh_token == Some(t.refresh_token) && t.expiry_timestamp == now
                + grant.expires_in,
            None => grant.refresh_token is None,
        },
{
    match grant.refresh_token {
        Some(rt) => Some(
            TokenData {
                access_token: grant.access_token,
                refresh_token: rt,
                expiry_timestamp: now + grant.expires_in,
            },
        ),
        None => None,
    }
}

/// Store the record computed from a grant at instant `now` for `provider`,
/// overwriting the old record wholesale; the rest of the configuration is
/// untouched. `None` exactly when the grant lacks a refresh token, and then
/// nothing changes.
pub fn apply_grant(config: &mut Config, provider: Provider, grant: GrantResponse, now: i64) -> (r:
    Option<TokenData>)
    requires
        old(config).wf(),
        1 <= now,
        0 <= grant.expires_in,
        now + grant.expires_in <= i64::MAX,
    ensures
        final(config).wf(),
        match r {
            Some(t) => grant.refresh_token is Some && t.access_token == grant.access_token
                && grant.refresh_token == Some(t.refresh_token) && t.expiry_timestamp == now
                + grant.expires_in && *final(config) == old(config).with_tokens(
                provider,
                (ProviderConfig {
                    access_token: t.access_token,
                    refresh_token: t.refresh_token,
                    expiry_timestamp: t.expiry_timestamp,
                }),
            ),
            None => grant.refresh_token is None && *final(config) == *old(config),
        },
{
    match token_record_from_grant(grant, now) {
        Some(t) => {
            let record = ProviderConfig {
                access_token: t.access_token.clone(),
                refresh_token: t.refresh_token.clone(),
                expiry_timestamp: t.expiry_timestamp,
            };
            config.store_tokens(provider, record);
            Some(t)
        },
        None => None,
    }
}

/// `complete(provider, code)` after the authorization-code grant has
/// answered: compute `expiry_timestamp = now + expires_in`, write the whole
/// new record into the configuration, and hand the record back. Fails with
/// `TokenExchangeFailed` — leaving the configuration untouched — exactly
/// when the grant lacks a refresh token.
pub fn complete_at(config: &mut Config, provider: Provider, grant: GrantResponse, now: i64) -> (r:
    Result<TokenData, OAuthError>)
    requires
        old(config).wf(),
        1 <= now,
        0 <= grant.expires_in,
        now + grant.expires_in <= i64::MAX,
    ensures
        final(config).wf(),
        r is Ok <==> grant.refresh_token is Some,
        match r {
            Ok(t) => t.access_token == grant.access_token && grant.refresh_token == Some(
                t.refresh_token,
            ) && t.expiry_timestamp == now + grant.expires_in && *final(config) == old(
                config,
            ).with_tokens(
                provider,
                (ProviderConfig {
                    access_token: t.access_token,
                    refresh_token: t.refresh_token,
                    expiry_timestamp: t.expiry_timestamp,
                }),
            ),
            Err(e) => e == OAuthError::TokenExchangeFailed && *final(config) == *old(config),
        },
{
    match apply_grant(config, provider, grant, now) {
        Some(t) => Ok(t),
        None => Err(OAuthError::TokenExchangeFailed),
    }
}

/// The tail of `ensure_valid` after a refresh-token grant has answered:
/// identical to `complete_at` but failing with `TokenRefreshFailed`, which
/// the caller must treat as requiring a full re-initiation.
pub fn refresh_at(config: &mut Config, provider: Provider, grant: GrantResponse, now: i64) -> (r:
    Result<TokenData, OAuthError>)
    requires
        old(config).wf(),
        1 <= now,
        0 <= grant.expires_in,
        now + grant.expires_in <= i64::MAX,
    ensures
        final(config).wf(),
        r is Ok <==> grant.refresh_token is Some,
        match r {
            Ok(t) => t.access_token == grant.access_token && grant.refresh_token == Some(
                t.refresh_token,
            ) && t.expiry_timestamp == now + grant.expires_in && *final(config) == old(
                config,
            ).with_tokens(
                provider,
                (ProviderConfig {
                    access_token: t.access_token,
                    refresh_token: t.refresh_token,
                    expiry_timestamp: t.expiry_timestamp,
                }),
            ),
            Err(e) => e == OAuthError::TokenRefreshFailed && *final(config) == *old(config),
        },
{
    match apply_grant(config, provider, grant, now) {
        Some(t) => Ok(t),
        None => Err(OAuthError::TokenRefreshFailed),
    }
}

/// Relies on chrono::Utc::now: the system clock, converted to whole seconds
/// since the Unix epoch. Nothing is assumed about the value — the host clock
/// may be set to anything.
#[verifier::external_body]
fn unix_now() -> (r: i64) {
    chrono::Utc::now().timestamp()
}

/// `complete` as the lifecycle manager runs it, stamping the record with the
/// clock read during the call. The exact expiry arithmetic is stated by
/// `complete_at`; this function states what holds whatever instant the
/// clock returned: on success the grant's tokens are stored wholesale and
/// the expiry lies strictly beyond the reported lifetime.
pub fn complete(config: &mut Config, provider: Provider, grant: GrantResponse) -> (r: Result<
    TokenData,
    OAuthError,
>)
    requires
        old(config).wf(),
        0 <= grant.expires_in,
    ensures
        final(config).wf(),
        grant.refresh_token is None ==> r is Err,
        match r {
            Ok(t) => grant.refresh_token is Some && t.access_token == grant.access_token
                && grant.refresh_token == Some(t.refresh_token) && grant.expires_in
                < t.expiry_timestamp && *final(config) == old(config).with_tokens(
                provider,
                (ProviderConfig {
                    access_token: t.access_token,
                    refresh_token: t.refresh_token,
                    expiry_timestamp: t.expiry_timestamp,
                }),
            ),
            Err(e) => e == OAuthError::TokenExchangeFailed && *final(config) == *old(config),
        },
{
    let now = unix_now();
    if 1 <= now && grant.expires_in <= i64::MAX - now {
        complete_at(config, provider, grant, now)
    } else {
        Err(OAuthError::TokenExchangeFailed)
    }
}

/// `refresh` as the lifecycle manager runs it; the counterpart of `complete`
/// for the refresh-token grant, failing with `TokenRefreshFailed`.
pub fn refresh(config: &mut Config, provider: Provider, grant: GrantResponse) -> (r: Result<
    TokenData,
    OAuthError,
>)
    requires
        old(config).wf(),
        0 <= grant.expires_in,
    ensures
        final(config).wf(),
        grant.refresh_token is None ==> r is Err,
        match r {
            Ok(t) => grant.refresh_token is Some && t.access_token == grant.access_token
                && grant.refresh_token == Some(t.refresh_token) && grant.expires_in
                < t.expiry_timestamp && *final(config) == old(config).with_tokens(
                provider,
                (ProviderConfig {
                    access_token: t.access_token,
                    refresh_token: t.refresh_token,
                    expiry_timestamp: t.expiry_timestamp,
                }),
            ),
            Err(e) => e == OAuthError::TokenRefreshFailed && *final(config) == *old(config),
        },
{
    let now = unix_now();
    if 1 <= now && grant.expires_in <= i64::MAX - now {
        refresh_at(config, provider, grant, now)
    } else {
        Err(OAuthError::TokenRefreshFailed)
    }
}

/// The refresh decision against the clock read during the call. Whatever
/// instant came back, the plan's payload is the stored refresh token or the
/// stored access token; the exact margin condition is stated by
/// `plan_ensure_valid`.
pub fn plan_ensure_valid_now(tokens: &ProviderConfig) -> (r: TokenPlan)
    ensures
        r matches TokenPlan::RefreshWith(t) ==> t == tokens.refresh_token,
        r matches TokenPlan::UseCurrent(t) ==> t == tokens.access_token,
{
    let now = unix_now();
    plan_ensure_valid(tokens, now)
}

/// Per-provider authentication states. A flow that never receives its
/// callback is parked in `Authenticating` until a timeout reverts it.
#[derive(Clone, Copy, PartialEq, Eq, Structural, Debug)]
pub enum AuthState {
    Unauthenticated,
    Authenticating,
    Authenticated,
    Refreshing,
}

/// Events that drive the per-provider state machine.
#[derive(Clone, Copy, PartialEq, Eq, Structural, Debug)]
pub enum AuthEvent {
    /// The user started a login; the authorization URL is being opened.
    Initiate,
    /// `complete` stored a new record.
    ExchangeSucceeded,
    /// The authorization-code grant failed.
    ExchangeFailed,
    /// `ensure_valid` found the stored token due and started a refresh.
    RefreshStarted,
    /// The refresh-token grant stored a new record.
    RefreshSucceeded,
    /// The refresh-token grant failed; a full re-initiation is required.
    RefreshFailed,
    /// A flow parked in `Authenticating` hit its timeout.
    FlowTimedOut,
}

/// In which states each event may arrive.
pub open spec fn step_allowed(s: AuthState, e: AuthEvent) -> bool {
    match e {
        AuthEvent::Initiate => s is Unauthenticated || s is Authenticated,
        AuthEvent::ExchangeSucceeded => s is Authenticating,
        AuthEvent::ExchangeFailed => s is Authenticating,
        AuthEvent::RefreshStarted => s is Authenticated,
        AuthEvent::RefreshSucceeded => s is Refreshing,
        AuthEvent::RefreshFailed => s is Refreshing,
        AuthEvent::FlowTimedOut => s is Authenticating,
    }
}

/// The state after an event: initiation leads to `Authenticating`, success
/// to `Authenticated`, and every hard failure back to `Unauthenticated`.
pub open spec fn step_spec(s: AuthState, e: AuthEvent) -> AuthState {
    match e {
        AuthEvent::Initiate => AuthState::Authenticating,
        AuthEvent::ExchangeSucceeded => AuthState::Authenticated,
        AuthEvent::ExchangeFailed => AuthState::Unauthenticated,
        AuthEvent::RefreshStarted => AuthState::Refreshing,
        AuthEvent::RefreshSucceeded => AuthState::Authenticated,
        AuthEvent::RefreshFailed => AuthState::Unauthenticated,
        AuthEvent::FlowTimedOut => AuthState::Unauthenticated,
    }
}

/// Advance the per-provider state machine by one event.
pub fn step(s: AuthState, e: AuthEvent) -> (r: AuthState)
    requires
        step_allowed(s, e),
    ensures
        r == step_spec(s, e),
{
    match e {
        AuthEvent::Initiate => AuthState::Authenticating,
        AuthEvent::ExchangeSucceeded => AuthState::Authenticated,
        AuthEvent::ExchangeFailed => AuthState::Unauthenticated,
        AuthEvent::RefreshStarted => AuthState::Refreshing,
        AuthEvent::RefreshSucceeded => AuthState::Authenticated,
        AuthEvent::RefreshFailed => AuthState::Unauthenticated,
        AuthEvent::FlowTimedOut => AuthState::Unauthenticated,
    }
}

/// Notification event published to the UI layer after a successful exchange;
/// fire-and-forget, the core never waits for delivery.
#[derive(Clone, Copy, Debug)]
pub struct Payload<'a> {
    pub message: &'a str,
}

/// The message carried by the login notification for each provider.
pub open spec fn login_message_spec(p: Provider) -> Seq<char> {
    match p {
        Provider::GitHub => "GitHub login successful"@,
        Provider::Discord => "Discord login successful"@,
        Provider::Google => "Google login successful"@,
    }
}

/// Build the notification payload announcing a completed login.
pub fn login_success_payload(p: Provider) -> (r: Payload<'static>)
    ensures
        r.message@ == login_message_spec(p),
{
    match p {
        Provider::GitHub => Payload { message: "GitHub login successful" },
        Provider::Discord => Payload { message: "Discord login successful" },
        Provider::Google => Payload { message: "Google login successful" },
    }
}

} // verus!
