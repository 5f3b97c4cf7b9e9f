//! Decoding of custom-scheme redirect URIs into (provider, code) pairs.
//!
//! A callback has the shape `app://auth/<provider>/callback?code=<code>`,
//! optionally followed by further `&`-separated query parameters. The
//! provider string is passed through uninterpreted; classification into the
//! closed provider set happens at the call site.

use vstd::prelude::*;

use crate::errors::OAuthError;
use crate::provider::{classify_provider, classify_provider_spec, Provider};
use crate::text::{
    find_first, find_substring, lemma_find_first_at, lemma_find_first_none, matches_at, occurs_at,
};

verus! {

/// The scheme prefix every callback URI starts with.
pub open spec fn scheme_prefix() -> Seq<char> {
    "app://auth/"@
}

/// The path-and-query marker that separates the provider name from the
/// authorization code.
pub open spec fn callback_marker() -> Seq<char> {
    "/callback?code="@
}

/// What decoding returns, stated over character sequences: if the URI starts
/// with the scheme prefix and the remainder contains the callback marker,
/// the provider is the part before the first marker and the code is the part
/// after it, cut at the first `&`; otherwise there is no match.
pub open spec fn decode_spec(link: Seq<char>) -> Option<(Seq<char>, Seq<char>)> {
    if occurs_at(link, scheme_prefix(), 0) {
        let rest = link.subrange(scheme_prefix().len() as int, link.len() as int);
        match find_first(rest, callback_marker()) {
            Some(i) => {
                let tail = rest.subrange(i + callback_marker().len(), rest.len() as int);
                let code = match find_first(tail, "&"@) {
                    Some(j) => tail.subrange(0, j),
                    None => tail,
                };
                Some((rest.subrange(0, i), code))
            },
            None => None,
        }
    } else {
        None
    }
}

/// Split a redirect URI into its provider and authorization-code substrings.
/// Returns `None` for every URI that does not match the callback scheme.
pub fn extract_provider_and_code(link: &str) -> (r: Option<(String, String)>)
    ensures
        match r {
            Some(pc) => decode_spec(link@) == Some((pc.0@, pc.1@)),
            None => decode_spec(link@) is None,
        },
{
    let prefix = "app://auth/";
    let marker = "/callback?code=";
    let n = link.unicode_len();
    let plen = prefix.unicode_len();
    if n < plen {
        return None;
    }
    if !matches_at(link, 0, prefix) {
        return None;
    }
    let rest = link.substring_char(plen, n);
    match find_substring(rest, marker) {
        Some(i) => {
            proof {
                lemma_find_first_at(rest@, marker@, i as int);
            }
            let mlen = marker.unicode_len();
            let rlen = rest.unicode_len();
            let provider = rest.substring_char(0, i).to_owned();
            let tail = rest.substring_char(i + mlen, rlen);
            let code = match find_substring(tail, "&") {
                Some(j) => {
                    proof {
                        lemma_find_first_at(tail@, "&"@, j as int);
                    }
                    tail.substring_char(0, j).to_owned()
                },
                None => {
                    proof {
                        lemma_find_first_none(tail@, "&"@);
                    }
                    tail.to_owned()
                },
            };
            Some((provider, code))
        },
        None => {
            proof {
                lemma_find_first_none(rest@, marker@);
            }
            None
        },
    }
}

/// Decoding as an operation that can fail: the error for a URI that does not
/// match the scheme is `MalformedRedirect`.
pub fn decode_redirect(link: &str) -> (r: Result<(String, String), OAuthError>)
    ensures
        match r {
            Ok(pc) => decode_spec(link@) == Some((pc.0@, pc.1@)),
            Err(e) => decode_spec(link@) is None && e == OAuthError::MalformedRedirect,
        },
{
    match extract_provider_and_code(link) {
        Some(pc) => Ok(pc),
        None => Err(OAuthError::MalformedRedirect),
    }
}

/// What the deep-link handler decides for one incoming URI.
#[derive(PartialEq, Debug)]
pub enum RedirectAction {
    /// A well-formed callback for a known provider: exchange the code.
    BeginExchange(Provider, String),
    /// A well-formed callback for a provider outside the closed set: ignore
    /// it silently (the OS may deliver unrelated deep links).
    UnknownProvider(String),
    /// Not a callback of our scheme: drop it.
    NotACallback,
}

/// Route one incoming deep link: decode it, classify the provider, and say
/// what the caller should do.
pub fn route_redirect(link: &str) -> (r: RedirectAction)
    ensures
        match decode_spec(link@) {
            Some(pc) => match classify_provider_spec(pc.0) {
                Some(p) => r matches RedirectAction::BeginExchange(q, code) && q == p && code@
                    == pc.1,
                None => r matches RedirectAction::UnknownProvider(name) && name@ == pc.0,
            },
            None => r == RedirectAction::NotACallback,
        },
{
    match extract_provider_and_code(link) {
        Some((name, code)) => match classify_provider(name.as_str()) {
            Some(p) => RedirectAction::BeginExchange(p, code),
            None => RedirectAction::UnknownProvider(name),
        },
        None => RedirectAction::NotACallback,
    }
}

/// Every URI assembled from the callback scheme decodes to exactly its
/// provider and code substrings, provided the provider contains no `/`, the
/// code contains no `&`, and whatever follows the code is either empty or a
/// further `&`-separated query string.
pub proof fn lemma_decode_valid_uri(provider: Seq<char>, code: Seq<char>, extra: Seq<char>)
    requires
        forall|j: int| 0 <= j < provider.len() ==> provider[j] != '/',
        forall|j: int| 0 <= j < code.len() ==> code[j] != '&',
        extra.len() == 0 || extra[0] == '&',
    ensures
        decode_spec(scheme_prefix() + provider + callback_marker() + code + extra) == Some(
            (provider, code),
        ),
{
    let link = scheme_prefix() + provider + callback_marker() + code + extra;
    let plen = scheme_prefix().len() as int;
    let mlen = callback_marker().len() as int;
    reveal_strlit("/callback?code=");
    reveal_strlit("&");
    assert(scheme_prefix() =~= link.subrange(0, plen));
    assert(occurs_at(link, scheme_prefix(), 0));
    let rest = link.subrange(plen, link.len() as int);
    assert(rest =~= provider + callback_marker() + code + extra);
    let pl = provider.len() as int;
    assert(callback_marker() =~= rest.subrange(pl, pl + mlen));
    assert(occurs_at(rest, callback_marker(), pl));
    assert(callback_marker()[0] == '/');
    assert forall|j: int| 0 <= j < pl implies !occurs_at(rest, callback_marker(), j) by {
        if occurs_at(rest, callback_marker(), j) {
            assert(callback_marker()[0] == rest.subrange(j, j + callback_marker().len() as int)[0]);
            assert(rest[j] == '/');
            assert(provider[j] == '/');
        }
    }
    lemma_find_first_at(rest, callback_marker(), pl);
    let tail = rest.subrange(pl + mlen, rest.len() as int);
    assert(tail =~= code + extra);
    let cl = code.len() as int;
    if extra.len() == 0 {
        assert forall|j: int| !occurs_at(tail, "&"@, j) by {
            if occurs_at(tail, "&"@, j) {
                assert("&"@[0] == tail.subrange(j, j + 1)[0]);
                assert(tail[j] == '&');
                assert(code[j] == '&');
            }
        }
        lemma_find_first_none(tail, "&"@);
        assert(tail =~= code);
    } else {
        assert(tail[cl] == '&');
        assert("&"@ =~= tail.subrange(cl, cl + 1));
        assert(occurs_at(tail, "&"@, cl));
        assert forall|j: int| 0 <= j < cl implies !occurs_at(tail, "&"@, j) by {
            if occurs_at(tail, "&"@, j) {
                assert("&"@[0] == tail.subrange(j, j + 1)[0]);
                assert(tail[j] == '&');
                assert(code[j] == '&');
            }
        }
        lemma_find_first_at(tail, "&"@, cl);
        assert(tail.subrange(0, cl) =~= code);
    }
    assert(rest.subrange(0, pl) =~= provider);
}

/// A URI in which the callback marker never occurs decodes to no match.
pub proof fn lemma_decode_missing_marker(link: Seq<char>)
    requires
        forall|i: int| !occurs_at(link, callback_marker(), i),
    ensures
        decode_spec(link) is None,
{
    if occurs_at(link, scheme_prefix(), 0) {
        let plen = scheme_prefix().len() as int;
        let rest = link.subrange(plen, link.len() as int);
        assert forall|i: int| !occurs_at(rest, callback_marker(), i) by {
            if occurs_at(rest, callback_marker(), i) {
                assert(callback_marker() =~= link.subrange(
                    plen + i,
                    plen + i + callback_marker().len() as int,
                ));
                assert(occurs_at(link, callback_marker(), plen + i));
            }
        }
        lemma_find_first_none(rest, callback_marker());
    }
}

} // verus!
