//! End-to-end walk of the callback path: redirect, decode, exchange,
//! persisted record.

use keysync::config::Config;
use keysync::lifecycle::{complete_at, GrantResponse};
use keysync::provider::Provider;
use keysync::redirect::{route_redirect, RedirectAction};

#[test]
fn github_callback_flows_into_persisted_record() {
    // the OS delivers the redirect; the decoder yields ("github", "ABC123")
    let action = route_redirect("app://auth/github/callback?code=ABC123");
    let (provider, code) = match action {
        RedirectAction::BeginExchange(p, c) => (p, c),
        other => panic!("expected an exchange, got {:?}", other),
    };
    assert_eq!(provider, Provider::GitHub);
    assert_eq!(code, "ABC123");

    // the exchange is called with that code and the provider answers
    // {access_token: "tok", refresh_token: "ref", expires_in: 3600}
    let now = 1_700_000_000;
    let grant = GrantResponse {
        access_token: "tok".to_string(),
        refresh_token: Some("ref".to_string()),
        expires_in: 3600,
    };
    let mut config = Config::default();
    let t = complete_at(&mut config, provider, grant, now).unwrap();

    // the persisted record carries expiry_timestamp == now + 3600
    assert_eq!(t.expiry_timestamp, now + 3600);
    let stored = config.accounts.get(Provider::GitHub);
    assert_eq!(stored.access_token, "tok");
    assert_eq!(stored.refresh_token, "ref");
    assert_eq!(stored.expiry_timestamp, now + 3600);
}
