use keysync::errors::OAuthError;
use keysync::provider::{classify_provider, Provider};
use keysync::redirect::{decode_redirect, extract_provider_and_code, route_redirect, RedirectAction};

#[test]
fn decodes_github_callback() {
    let r = extract_provider_and_code("app://auth/github/callback?code=ABC123");
    assert_eq!(r, Some(("github".to_string(), "ABC123".to_string())));
}

#[test]
fn decodes_code_up_to_first_query_delimiter() {
    let r = extract_provider_and_code("app://auth/github/callback?code=abc123&state=xyz");
    assert_eq!(r, Some(("github".to_string(), "abc123".to_string())));
}

#[test]
fn decodes_unknown_provider_uninterpreted() {
    let r = extract_provider_and_code("app://auth/gitlab/callback?code=q");
    assert_eq!(r, Some(("gitlab".to_string(), "q".to_string())));
}

#[test]
fn decodes_empty_code() {
    let r = extract_provider_and_code("app://auth/github/callback?code=");
    assert_eq!(r, Some(("github".to_string(), "".to_string())));
}

#[test]
fn decodes_empty_code_before_delimiter() {
    let r = extract_provider_and_code("app://auth/github/callback?code=&state=s");
    assert_eq!(r, Some(("github".to_string(), "".to_string())));
}

#[test]
fn rejects_uri_missing_callback_marker() {
    assert_eq!(extract_provider_and_code("app://auth/github"), None);
    assert_eq!(extract_provider_and_code("app://auth/github/callback"), None);
    assert_eq!(extract_provider_and_code("app://auth/github?code=x"), None);
}

#[test]
fn rejects_uri_with_wrong_scheme() {
    assert_eq!(extract_provider_and_code("https://example.com/a"), None);
    assert_eq!(
        extract_provider_and_code("keysync://auth/github/callback?code=x"),
        None
    );
    assert_eq!(extract_provider_and_code(""), None);
}

#[test]
fn rejects_uri_with_prefix_not_at_start() {
    assert_eq!(
        extract_provider_and_code("xapp://auth/github/callback?code=x"),
        None
    );
}

#[test]
fn decode_redirect_reports_malformed() {
    let r = decode_redirect("app://other/things");
    assert_eq!(r, Err(OAuthError::MalformedRedirect));
    assert_eq!(
        OAuthError::MalformedRedirect.message(),
        "redirect URI does not match the callback scheme"
    );
}

#[test]
fn decode_redirect_passes_pair_through() {
    let r = decode_redirect("app://auth/discord/callback?code=d1");
    assert_eq!(r, Ok(("discord".to_string(), "d1".to_string())));
}

#[test]
fn classifies_known_providers() {
    assert_eq!(classify_provider("github"), Some(Provider::GitHub));
    assert_eq!(classify_provider("discord"), Some(Provider::Discord));
    assert_eq!(classify_provider("google"), Some(Provider::Google));
    assert_eq!(classify_provider("gitlab"), None);
    assert_eq!(classify_provider(""), None);
    assert_eq!(classify_provider("GitHub"), None);
}

#[test]
fn routes_known_provider_to_exchange() {
    let r = route_redirect("app://auth/github/callback?code=5e03afbcc10d6b83c46e");
    assert_eq!(
        r,
        RedirectAction::BeginExchange(Provider::GitHub, "5e03afbcc10d6b83c46e".to_string())
    );
}

#[test]
fn routes_unknown_provider_to_silent_ignore() {
    let r = route_redirect("app://auth/gitlab/callback?code=q");
    assert_eq!(r, RedirectAction::UnknownProvider("gitlab".to_string()));
}

#[test]
fn routes_unrelated_link_to_drop() {
    let r = route_redirect("app://settings/open");
    assert_eq!(r, RedirectAction::NotACallback);
}
