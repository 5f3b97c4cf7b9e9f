//! The closed set of OAuth providers and classification of provider strings.

use vstd::prelude::*;

use crate::text::str_equal;

verus! {

/// The providers this client can authenticate against. A closed set, used as
/// a lookup key and never extended at runtime; redirects naming any other
/// provider are ignored at the call site.
#[derive(Clone, Copy, PartialEq, Eq, Structural, Debug, Hash)]
pub enum Provider {
    GitHub,
    Discord,
    Google,
}

/// The name under which a provider appears in redirect URIs and in the
/// persisted configuration.
pub open spec fn provider_name_spec(p: Provider) -> Seq<char> {
    match p {
        Provider::GitHub => "github"@,
        Provider::Discord => "discord"@,
        Provider::Google => "google"@,
    }
}

/// Classification of a decoded provider string into the closed set; `None`
/// for every unrecognized name.
pub open spec fn classify_provider_spec(s: Seq<char>) -> Option<Provider> {
    if s == "github"@ {
        Some(Provider::GitHub)
    } else if s == "discord"@ {
        Some(Provider::Discord)
    } else if s == "google"@ {
        Some(Provider::Google)
    } else {
        None
    }
}

/// Suffix of the fallback addresses a provider issues to users who hide
/// their email. Only GitHub documents such a domain; for the others the
/// suffix is empty, so the noreply rung of the email priority collapses
/// into the first-in-list fallback.
pub open spec fn noreply_suffix_spec(p: Provider) -> Seq<char> {
    match p {
        Provider::GitHub => "users.noreply.github.com"@,
        Provider::Discord => ""@,
        Provider::Google => ""@,
    }
}

impl Provider {
    /// The provider's name as it appears in redirect URIs and configuration.
    pub fn name(&self) -> (r: &'static str)
        ensures
            r@ == provider_name_spec(*self),
    {
        match self {
            Provider::GitHub => "github",
            Provider::Discord => "discord",
            Provider::Google => "google",
        }
    }

    /// Suffix of the provider-issued noreply addresses; see
    /// `noreply_suffix_spec`.
    pub fn noreply_suffix(&self) -> (r: &'static str)
        ensures
            r@ == noreply_suffix_spec(*self),
    {
        match self {
            Provider::GitHub => "users.noreply.github.com",
            Provider::Discord => "",
            Provider::Google => "",
        }
    }
}

/// Classification inverts naming: every provider's own name classifies back
/// to that provider, so a callback built for a provider is routed to it.
pub proof fn lemma_classify_name(p: Provider)
    ensures
        classify_provider_spec(provider_name_spec(p)) == Some(p),
{
    reveal_strlit("github");
    reveal_strlit("discord");
    reveal_strlit("google");
    assert("discord"@.len() != "github"@.len());
    assert("google"@[1] != "github"@[1]);
}

/// Classify a provider string taken from a redirect URI. Unknown names give
/// `None`: the caller treats them as a no-op, not an error, because the OS
/// may deliver unrelated deep links.
pub fn classify_provider(name: &str) -> (r: Option<Provider>)
    ensures
        r == classify_provider_spec(name@),
{
    if str_equal(name, "github") {
        Some(Provider::GitHub)
    } else if str_equal(name, "discord") {
        Some(Provider::Discord)
    } else if str_equal(name, "google") {
        Some(Provider::Google)
    } else {
        None
    }
}

} // verus!
