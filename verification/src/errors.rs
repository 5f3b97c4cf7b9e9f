//! Error taxonomy of the OAuth client.

use vstd::prelude::*;

verus! {

/// Everything that can go wrong in the token lifecycle, from decoding a
/// redirect to persisting the configuration. Errors are surfaced to the UI
/// layer as string messages; none is retried automatically.
#[derive(Clone, Copy, PartialEq, Eq, Structural, Debug)]
pub enum OAuthError {
    /// A deep link did not match the callback scheme. Non-fatal: logged and
    /// dropped by the caller.
    MalformedRedirect,
    /// The authorization-code grant failed; the user must initiate a new
    /// login.
    TokenExchangeFailed,
    /// The refresh-token grant failed; the user must initiate a new login.
    TokenRefreshFailed,
    /// A provider identity endpoint answered with a non-success status.
    ProfileFetchFailed,
    /// A provider response body could not be decoded into the expected shape.
    ProfileParseFailed,
    /// The persisted configuration could not be read.
    ConfigReadFailed,
    /// The persisted configuration could not be written.
    ConfigWriteFailed,
}

/// The message that `OAuthError::message` returns for each variant.
pub open spec fn error_message_spec(e: OAuthError) -> Seq<char> {
    match e {
        OAuthError::MalformedRedirect => "redirect URI does not match the callback scheme"@,
        OAuthError::TokenExchangeFailed => "failed to exchange authorization code for tokens"@,
        OAuthError::TokenRefreshFailed => "failed to refresh the access token"@,
        OAuthError::ProfileFetchFailed => "failed to fetch the user profile"@,
        OAuthError::ProfileParseFailed => "failed to parse the user profile response"@,
        OAuthError::ConfigReadFailed => "failed to read the config file"@,
        OAuthError::ConfigWriteFailed => "failed to write the config file"@,
    }
}

impl OAuthError {
    /// The human-readable message surfaced to the UI layer.
    pub fn message(&self) -> (r: &'static str)
        ensures
            r@ == error_message_spec(*self),
    {
        match self {
            OAuthError::MalformedRedirect => "redirect URI does not match the callback scheme",
            OAuthError::TokenExchangeFailed => "failed to exchange authorization code for tokens",
            OAuthError::TokenRefreshFailed => "failed to refresh the access token",
            OAuthError::ProfileFetchFailed => "failed to fetch the user profile",
            OAuthError::ProfileParseFailed => "failed to parse the user profile response",
            OAuthError::ConfigReadFailed => "failed to read the config file",
            OAuthError::ConfigWriteFailed => "failed to write the config file",
        }
    }
}

} // verus!
