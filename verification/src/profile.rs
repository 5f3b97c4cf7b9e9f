//! The profile fetcher's decision logic: selecting a representative email
//! address and upserting provider-tagged profiles into the configuration.

use vstd::prelude::*;

use crate::config::{Config, UserProfile};
use crate::errors::OAuthError;
use crate::provider::Provider;
use crate::text::ends_with;

verus! {

/// One address from a provider's emails endpoint.
#[derive(Clone, PartialEq, Debug)]
pub struct EmailEntry {
    pub email: String,
    pub primary: bool,
    pub verified: bool,
}

/// The entry is flagged as the account's primary address.
pub open spec fn primary_pred() -> spec_fn(EmailEntry) -> bool {
    |e: EmailEntry| e.primary
}

/// The entry is flagged as verified.
pub open spec fn verified_pred() -> spec_fn(EmailEntry) -> bool {
    |e: EmailEntry| e.verified
}

/// The entry is a provider-issued noreply address.
pub open spec fn noreply_pred(suffix: Seq<char>) -> spec_fn(EmailEntry) -> bool {
    |e: EmailEntry| suffix.is_suffix_of(e.email@)
}

/// Index of the first entry satisfying `pred`, if any.
pub open spec fn first_where(s: Seq<EmailEntry>, pred: spec_fn(EmailEntry) -> bool) -> Option<int>
    decreases s.len(),
{
    if s.len() == 0 {
        None
    } else if pred(s[0]) {
        Some(0)
    } else {
        match first_where(s.subrange(1, s.len() as int), pred) {
            Some(i) => Some(i + 1),
            None => None,
        }
    }
}

/// `first_where` returns the least index whose entry satisfies `pred`, and
/// `None` exactly when no entry does.
pub proof fn lemma_first_where(s: Seq<EmailEntry>, pred: spec_fn(EmailEntry) -> bool)
    ensures
        match first_where(s, pred) {
            Some(i) => 0 <= i < s.len() && pred(s[i]) && (forall|j: int|
                0 <= j < i ==> !pred(s[j])),
            None => forall|j: int| 0 <= j < s.len() ==> !pred(s[j]),
        },
    decreases s.len(),
{
    if s.len() == 0 {
    } else if pred(s[0]) {
    } else {
        let t = s.subrange(1, s.len() as int);
        lemma_first_where(t, pred);
        assert(forall|j: int| 0 <= j < t.len() ==> t[j] == s[j + 1]);
        match first_where(t, pred) {
            Some(i) => {
                assert(s[i + 1] == t[i]);
                assert forall|j: int| 0 <= j < i + 1 implies !pred(s[j]) by {
                    if j >= 1 {
                        assert(s[j] == t[j - 1]);
                    }
                }
            },
            None => {
                assert forall|j: int| 0 <= j < s.len() implies !pred(s[j]) by {
                    if j >= 1 {
                        assert(s[j] == t[j - 1]);
                    }
                }
            },
        }
    }
}

/// If entry `i` satisfies `pred` and no earlier entry does, `first_where`
/// returns `i`.
pub proof fn lemma_first_where_at(s: Seq<EmailEntry>, pred: spec_fn(EmailEntry) -> bool, i: int)
    requires
        0 <= i < s.len(),
        pred(s[i]),
        forall|j: int| 0 <= j < i ==> !pred(s[j]),
    ensures
        first_where(s, pred) == Some(i),
{
    lemma_first_where(s, pred);
    match first_where(s, pred) {
        Some(k) => {
            if k < i {
                assert(!pred(s[k]));
            }
            if k > i {
                assert(!pred(s[i]));
            }
        },
        None => {
            assert(!pred(s[i]));
        },
    }
}

/// If no entry satisfies `pred`, `first_where` returns `None`.
pub proof fn lemma_first_where_none(s: Seq<EmailEntry>, pred: spec_fn(EmailEntry) -> bool)
    requires
        forall|j: int| 0 <= j < s.len() ==> !pred(s[j]),
    ensures
        first_where(s, pred) is None,
{
    lemma_first_where(s, pred);
}

/// The representative address of an email list: the first primary entry,
/// else the first verified entry, else the first provider noreply address,
/// else the first entry; `None` only for an empty list.
pub open spec fn select_email_spec(s: Seq<EmailEntry>, suffix: Seq<char>) -> Option<Seq<char>> {
    match first_where(s, primary_pred()) {
        Some(i) => Some(s[i].email@),
        None => match first_where(s, verified_pred()) {
            Some(i) => Some(s[i].email@),
            None => match first_where(s, noreply_pred(suffix)) {
                Some(i) => Some(s[i].email@),
                None => if s.len() > 0 {
                    Some(s[0].email@)
                } else {
                    None
                },
            },
        },
    }
}

/// Select the representative address by priority: primary flag, then
/// verified flag, then an address ending in the provider's noreply domain,
/// then the first in the list. `None` exactly for an empty list.
pub fn select_email(emails: &Vec<EmailEntry>, noreply_suffix: &str) -> (r: Option<String>)
    ensures
        match r {
            Some(e) => select_email_spec(emails@, noreply_suffix@) == Some(e@),
            None => select_email_spec(emails@, noreply_suffix@) is None,
        },
        (r is None) == (emails@.len() == 0),
{
    let n = emails.len();
    let mut i: usize = 0;
    while i < n
        invariant
            n == emails@.len(),
            i <= n,
            forall|j: int| 0 <= j < i ==> !primary_pred()(emails@[j]),
        decreases n - i,
    {
        if emails[i].primary {
            proof {
                lemma_first_where_at(emails@, primary_pred(), i as int);
            }
            return Some(emails[i].email.clone());
        }
        i += 1;
    }
    proof {
        lemma_first_where_none(emails@, primary_pred());
    }
    let mut i: usize = 0;
    while i < n
        invariant
            n == emails@.len(),
            i <= n,
            first_where(emails@, primary_pred()) is None,
            forall|j: int| 0 <= j < i ==> !verified_pred()(emails@[j]),
        decreases n - i,
    {
        if emails[i].verified {
            proof {
                lemma_first_where_at(emails@, verified_pred(), i as int);
            }
            return Some(emails[i].email.clone());
        }
        i += 1;
    }
    proof {
        lemma_first_where_none(emails@, verified_pred());
    }
    let mut i: usize = 0;
    while i < n
        invariant
            n == emails@.len(),
            i <= n,
            first_where(emails@, primary_pred()) is None,
            first_where(emails@, verified_pred()) is None,
            forall|j: int| 0 <= j < i ==> !noreply_pred(noreply_suffix@)(emails@[j]),
        decreases n - i,
    {
        if ends_with(emails[i].email.as_str(), noreply_suffix) {
            proof {
                lemma_first_where_at(emails@, noreply_pred(noreply_suffix@), i as int);
            }
            return Some(emails[i].email.clone());
        }
        i += 1;
    }
    proof {
        lemma_first_where_none(emails@, noreply_pred(noreply_suffix@));
    }
    if n > 0 {
        Some(emails[0].email.clone())
    } else {
        None
    }
}

/// Identity payload from GitHub's user endpoint; the email may be absent
/// for users who keep it private.
#[derive(Clone, PartialEq, Debug)]
pub struct GitHubUserProfile {
    pub login: String,
    pub email: Option<String>,
    pub avatar_url: String,
}

impl GitHubUserProfile {
    /// Normalize into the provider-tagged profile record; the login becomes
    /// the display name, and `email` is the representative address the
    /// caller resolved.
    pub fn to_user_profile(&self, email: String) -> (r: UserProfile)
        ensures
            r.provider == Provider::GitHub,
            r.email == email,
            r.name == self.login,
            r.avatar_url == self.avatar_url,
    {
        UserProfile {
            provider: Provider::GitHub,
            email,
            name: self.login.clone(),
            avatar_url: self.avatar_url.clone(),
        }
    }
}

/// A non-success HTTP status fails the profile fetch.
pub fn check_fetch_status(status: u16) -> (r: Result<(), OAuthError>)
    ensures
        r is Ok <==> 200 <= status < 300,
        r matches Err(e) ==> e == OAuthError::ProfileFetchFailed,
{
    if 200 <= status && status < 300 {
        Ok(())
    } else {
        Err(OAuthError::ProfileFetchFailed)
    }
}

/// The entry belongs to a provider other than `p`, so an upsert for `p`
/// keeps it.
pub open spec fn keeps_pred(p: Provider) -> spec_fn(UserProfile) -> bool {
    |q: UserProfile| q.provider != p
}

/// The entry belongs to provider `p`.
pub open spec fn for_provider_pred(p: Provider) -> spec_fn(UserProfile) -> bool {
    |q: UserProfile| q.provider == p
}

/// The profile set after upserting `p`: every entry of `p`'s provider is
/// replaced by `p`, appended at the end; all other entries keep their
/// relative order.
pub open spec fn upsert_spec(s: Seq<UserProfile>, p: UserProfile) -> Seq<UserProfile> {
    s.filter(keeps_pred(p.provider)).push(p)
}

/// Upsert `p` into the profile set: drop any entry for the same provider,
/// append `p`. Token records and credentials are untouched.
pub fn upsert_profile(config: &mut Config, p: UserProfile)
    ensures
        final(config).user_profiles@ == upsert_spec(old(config).user_profiles@, p),
        final(config).accounts == old(config).accounts,
        final(config).user == old(config).user,
{
    let ghost s = config.user_profiles@;
    let n = config.user_profiles.len();
    let mut kept: Vec<UserProfile> = Vec::new();
    proof {
        reveal(Seq::filter);
        assert(s.take(0) =~= Seq::<UserProfile>::empty());
    }
    let mut i: usize = 0;
    while i < n
        invariant
            *config == *old(config),
            s == config.user_profiles@,
            n == s.len(),
            i <= n,
            kept@ == s.take(i as int).filter(keeps_pred(p.provider)),
        decreases n - i,
    {
        let q = &config.user_profiles[i];
        proof {
            assert(s.take(i + 1).drop_last() =~= s.take(i as int));
            s.take(i as int).lemma_filter_push(s[i as int], keeps_pred(p.provider));
            assert(s.take(i + 1) =~= s.take(i as int).push(s[i as int]));
        }
        if q.provider != p.provider {
            kept.push(q.duplicate());
        }
        i += 1;
    }
    proof {
        assert(s.take(n as int) =~= s);
    }
    kept.push(p);
    config.user_profiles = kept;
}

/// After an upsert the profile set holds exactly one entry for the upserted
/// provider, and it carries the new data.
pub proof fn lemma_upsert_exactly_one(s: Seq<UserProfile>, p: UserProfile)
    ensures
        upsert_spec(s, p).filter(for_provider_pred(p.provider)) == seq![p],
{
    let kept = s.filter(keeps_pred(p.provider));
    lemma_filter_of_disjoint(s, p.provider);
    kept.lemma_filter_push(p, for_provider_pred(p.provider));
    assert(Seq::<UserProfile>::empty().push(p) =~= seq![p]);
}

/// Upserting for the same provider twice is the same as upserting the last
/// profile once: the earlier entry is replaced wholesale.
pub proof fn lemma_upsert_idempotent(s: Seq<UserProfile>, p1: UserProfile, p2: UserProfile)
    requires
        p1.provider == p2.provider,
    ensures
        upsert_spec(upsert_spec(s, p1), p2) == upsert_spec(s, p2),
{
    let kept = s.filter(keeps_pred(p1.provider));
    kept.lemma_filter_push(p1, keeps_pred(p2.provider));
    lemma_filter_of_kept(s, p1.provider);
}

/// Entries kept by an upsert never match the upserted provider, so
/// filtering them for that provider leaves nothing.
proof fn lemma_filter_of_disjoint(s: Seq<UserProfile>, p: Provider)
    ensures
        s.filter(keeps_pred(p)).filter(for_provider_pred(p)).len() == 0,
    decreases s.len(),
{
    reveal(Seq::filter);
    if s.len() > 0 {
        lemma_filter_of_disjoint(s.drop_last(), p);
        s.drop_last().filter(keeps_pred(p)).lemma_filter_push(s.last(), for_provider_pred(p));
    }
}

/// Filtering what a filter kept with the same predicate keeps everything:
/// the filter is idempotent.
proof fn lemma_filter_of_kept(s: Seq<UserProfile>, p: Provider)
    ensures
        s.filter(keeps_pred(p)).filter(keeps_pred(p)) == s.filter(keeps_pred(p)),
    decreases s.len(),
{
    reveal(Seq::filter);
    if s.len() > 0 {
        lemma_filter_of_kept(s.drop_last(), p);
        s.drop_last().filter(keeps_pred(p)).lemma_filter_push(s.last(), keeps_pred(p));
    }
}

} // verus!
