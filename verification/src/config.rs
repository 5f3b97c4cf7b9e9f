//! The persisted configuration: per-provider token records, the user-profile
//! set, and optional local credentials.

use vstd::prelude::*;

use crate::provider::Provider;

verus! {

/// Token record for one provider. Mutated only by the token lifecycle
/// manager, and always overwritten wholesale — never partially updated.
#[derive(Clone, PartialEq, Debug)]
pub struct ProviderConfig {
    pub access_token: String,
    pub refresh_token: String,
    pub expiry_timestamp: i64,
}

impl ProviderConfig {
    /// A record that holds a token must carry a positive expiry instant;
    /// an empty access token means "never authenticated".
    pub open spec fn wf(self) -> bool {
        self.access_token@.len() > 0 ==> self.expiry_timestamp > 0
    }

    /// The zero value: no tokens, no expiry.
    pub open spec fn is_zero(self) -> bool {
        self.access_token@.len() == 0 && self.refresh_token@.len() == 0
            && self.expiry_timestamp == 0
    }
}

impl Default for ProviderConfig {
    /// The zero value: no tokens, no expiry.
    fn default() -> (r: Self)
        ensures
            r.is_zero(),
            r.wf(),
    {
        ProviderConfig {
            access_token: String::new(),
            refresh_token: String::new(),
            expiry_timestamp: 0,
        }
    }
}

/// One token record per provider of the closed set.
#[derive(Clone, PartialEq, Debug)]
pub struct Accounts {
    pub github: ProviderConfig,
    pub discord: ProviderConfig,
    pub google: ProviderConfig,
}

impl Accounts {
    /// The record stored for `p`.
    pub open spec fn spec_get(self, p: Provider) -> ProviderConfig {
        match p {
            Provider::GitHub => self.github,
            Provider::Discord => self.discord,
            Provider::Google => self.google,
        }
    }

    /// These accounts with the record for `p` replaced by `t`.
    pub open spec fn spec_set(self, p: Provider, t: ProviderConfig) -> Accounts {
        match p {
            Provider::GitHub => Accounts { github: t, discord: self.discord, google: self.google },
            Provider::Discord => Accounts { github: self.github, discord: t, google: self.google },
            Provider::Google => Accounts { github: self.github, discord: self.discord, google: t },
        }
    }

    pub open spec fn wf(self) -> bool {
        self.github.wf() && self.discord.wf() && self.google.wf()
    }

    /// Look up the record stored for `p`.
    pub fn get(&self, p: Provider) -> (r: &ProviderConfig)
        ensures
            *r == self.spec_get(p),
    {
        match p {
            Provider::GitHub => &self.github,
            Provider::Discord => &self.discord,
            Provider::Google => &self.google,
        }
    }

    /// Replace the record stored for `p` wholesale.
    pub fn set(&mut self, p: Provider, t: ProviderConfig)
        ensures
            *final(self) == old(self).spec_set(p, t),
    {
        match p {
            Provider::GitHub => self.github = t,
            Provider::Discord => self.discord = t,
            Provider::Google => self.google = t,
        }
    }
}

impl Default for Accounts {
    /// Zero-value records for every provider.
    fn default() -> (r: Self)
        ensures
            r.github.is_zero(),
            r.discord.is_zero(),
            r.google.is_zero(),
            r.wf(),
    {
        Accounts {
            github: ProviderConfig::default(),
            discord: ProviderConfig::default(),
            google: ProviderConfig::default(),
        }
    }
}

/// A provider-tagged identity record. The profile set in `Config` holds at
/// most one entry per provider.
#[derive(Clone, PartialEq, Debug)]
pub struct UserProfile {
    pub provider: Provider,
    pub email: String,
    pub name: String,
    pub avatar_url: String,
}

impl UserProfile {
    /// An exact copy, stated field by field so that proofs can rely on the
    /// copy being equal to the value it was taken from.
    pub fn duplicate(&self) -> (r: UserProfile)
        ensures
            r == *self,
    {
        UserProfile {
            provider: self.provider,
            email: self.email.clone(),
            name: self.name.clone(),
            avatar_url: self.avatar_url.clone(),
        }
    }
}

/// Local account credentials, unrelated to the OAuth core; carried through
/// the configuration untouched.
#[derive(Clone, PartialEq, Debug)]
pub struct UserCredentials {
    pub email: String,
    pub password: String,
}

impl Default for UserCredentials {
    fn default() -> (r: Self)
        ensures
            r.email@.len() == 0,
            r.password@.len() == 0,
    {
        UserCredentials { email: String::new(), password: String::new() }
    }
}

/// The aggregate configuration document, loaded and stored wholesale by the
/// persistence layer.
#[derive(Clone, PartialEq, Debug)]
pub struct Config {
    pub accounts: Accounts,
    pub user_profiles: Vec<UserProfile>,
    pub user: Option<UserCredentials>,
}

impl Config {
    pub open spec fn wf(self) -> bool {
        self.accounts.wf()
    }

    /// This configuration with the token record for `p` replaced by `t`;
    /// profiles and credentials untouched.
    pub open spec fn with_tokens(self, p: Provider, t: ProviderConfig) -> Config {
        Config {
            accounts: self.accounts.spec_set(p, t),
            user_profiles: self.user_profiles,
            user: self.user,
        }
    }

    /// Replace the token record for `p` wholesale; nothing else changes.
    pub fn store_tokens(&mut self, p: Provider, t: ProviderConfig)
        ensures
            *final(self) == old(self).with_tokens(p, t),
    {
        self.accounts.set(p, t);
    }

    /// A record just stored for `p` is exactly what a subsequent read of the
    /// configuration shows for `p`; every other part of the document is
    /// untouched.
    pub proof fn lemma_with_tokens_get(self, p: Provider, q: Provider, t: ProviderConfig)
        ensures
            self.with_tokens(p, t).accounts.spec_get(p) == t,
            p != q ==> self.with_tokens(p, t).accounts.spec_get(q) == self.accounts.spec_get(q),
            self.with_tokens(p, t).user_profiles == self.user_profiles,
            self.with_tokens(p, t).user == self.user,
    {
    }
}

impl Default for Config {
    /// The sane zero-value document written on first run: no tokens, no
    /// profiles, no local credentials.
    fn default() -> (r: Self)
        ensures
            r.accounts.github.is_zero(),
            r.accounts.discord.is_zero(),
            r.accounts.google.is_zero(),
            r.user_profiles@.len() == 0,
            r.user is None,
            r.wf(),
    {
        Config { accounts: Accounts::default(), user_profiles: Vec::new(), user: None }
    }
}

} // verus!
