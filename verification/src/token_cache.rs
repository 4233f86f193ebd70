//! Process-local cache of the CI provider's installation tokens.
//!
//! The cache is keyed by `(owner, repo)` and holds each token with its
//! expiry.  Deciding whether a cached token is still good, and recording a
//! freshly minted one, is verified here; the minting itself — a signed
//! assertion exchanged over HTTP — happens outside the crate, under a lock
//! per cache so that concurrent callers do not mint duplicates.

use vstd::pervasive::VecAdditionalExecFns;
use vstd::prelude::*;

verus! {

/// One cached installation token.
#[derive(Debug, PartialEq, Eq)]
pub struct TokenEntry {
    pub owner: String,
    pub repo: String,
    /// Unix second past which the token is no longer used.
    pub expires_at: i64,
    pub token: String,
}

impl Clone for TokenEntry {
    fn clone(&self) -> (res: Self)
        ensures
            res == *self,
    {
        TokenEntry {
            owner: self.owner.clone(),
            repo: self.repo.clone(),
            expires_at: self.expires_at,
            token: self.token.clone(),
        }
    }
}

/// `e` is the cache entry of `(owner, repo)`.
pub open spec fn entry_key_eq(e: TokenEntry, owner: Seq<char>, repo: Seq<char>) -> bool {
    e.owner@ == owner && e.repo@ == repo
}

/// No two entries share a key.
pub open spec fn unique_entries(es: Seq<TokenEntry>) -> bool {
    forall|i: int, j: int| 0 <= i < j < es.len()
        ==> !((#[trigger] es[i]).owner@ == (#[trigger] es[j]).owner@
            && es[i].repo@ == es[j].repo@)
}

/// Some entry carries this key.
pub open spec fn has_entry(es: Seq<TokenEntry>, owner: Seq<char>, repo: Seq<char>) -> bool {
    exists|k: int| 0 <= k < es.len() && entry_key_eq(#[trigger] es[k], owner, repo)
}

/// A freshly recorded entry: this key, this expiry, this token.
pub open spec fn fresh_entry(
    e: TokenEntry,
    owner: Seq<char>,
    repo: Seq<char>,
    expires_at: i64,
    token: String,
) -> bool {
    &&& e.owner@ == owner
    &&& e.repo@ == repo
    &&& e.expires_at == expires_at
    &&& e.token == token
}

/// The installation-token cache.
pub struct TokenCache {
    entries: Vec<TokenEntry>,
}

impl View for TokenCache {
    type V = Seq<TokenEntry>;

    closed spec fn view(&self) -> Seq<TokenEntry> {
        self.entries@
    }
}

impl TokenCache {
    /// Each key appears at most once.
    pub open spec fn inv(&self) -> bool {
        unique_entries(self@)
    }

    pub fn new() -> (c: TokenCache)
        ensures
            c@ == Seq::<TokenEntry>::empty(),
            c.inv(),
    {
        TokenCache { entries: Vec::new() }
    }

    /// The index of the entry for `(owner, repo)`, if one is cached.
    #[verifier::loop_isolation(false)]
    fn find_entry(&self, owner: &str, repo: &str) -> (r: Option<usize>)
        ensures
            match r {
                Some(k) => k < self@.len() && entry_key_eq(self@[k as int], owner@, repo@),
                None => !has_entry(self@, owner@, repo@),
            },
    {
        let owner_key = owner.to_owned();
        let repo_key = repo.to_owned();
        let n = self.entries.len();
        let mut k: usize = 0;
        while k < n
            invariant
                k <= n,
                forall|j: int| 0 <= j < k ==> !entry_key_eq(#[trigger] self@[j], owner@, repo@),
            decreases n - k,
        {
            if self.entries[k].owner == owner_key && self.entries[k].repo == repo_key {
                return Some(k);
            }
            k += 1;
        }
        None
    }

    /// The cached token for `(owner, repo)`, provided it has not expired:
    /// a token is served only while `now` is strictly before its expiry.
    /// `None` asks the caller to mint a fresh token and `insert` it.
    pub fn lookup(&self, owner: &str, repo: &str, now: i64) -> (r: Option<String>)
        requires
            self.inv(),
        ensures
            match r {
                Some(t) => exists|k: int| {
                    &&& 0 <= k < self@.len()
                    &&& entry_key_eq(#[trigger] self@[k], owner@, repo@)
                    &&& now < self@[k].expires_at
                    &&& t == self@[k].token
                },
                None => forall|k: int| 0 <= k < self@.len()
                    && entry_key_eq(#[trigger] self@[k], owner@, repo@)
                    ==> now >= self@[k].expires_at,
            },
    {
        match self.find_entry(owner, repo) {
            None => None,
            Some(k) => {
                if now < self.entries[k].expires_at {
                    Some(self.entries[k].token.clone())
                } else {
                    None
                }
            },
        }
    }

    /// Record a freshly minted token for `(owner, repo)`, replacing any
    /// entry the key already had.
    pub fn insert(&mut self, owner: &str, repo: &str, expires_at: i64, token: String)
        requires
            old(self).inv(),
        ensures
            final(self).inv(),
            if has_entry(old(self)@, owner@, repo@) {
                exists|k: int| {
                    &&& 0 <= k < old(self)@.len()
                    &&& entry_key_eq(#[trigger] old(self)@[k], owner@, repo@)
                    &&& fresh_entry(final(self)@[k], owner@, repo@, expires_at, token)
                    &&& final(self)@ == old(self)@.update(k, final(self)@[k])
                }
            } else {
                final(self)@.len() == old(self)@.len() + 1
                    && fresh_entry(final(self)@.last(), owner@, repo@, expires_at, token)
                    && final(self)@ == old(self)@.push(final(self)@.last())
            },
    {
        let entry = TokenEntry {
            owner: owner.to_owned(),
            repo: repo.to_owned(),
            expires_at,
            token,
        };
        match self.find_entry(owner, repo) {
            Some(k) => {
                let ghost olds = self@;
                self.entries.set(k, entry);
                proof {
                    assert(final(self)@ =~= olds.update(k as int, final(self)@[k as int]));
                    assert forall|i: int, j: int| 0 <= i < j < self@.len()
                        implies !((#[trigger] self@[i]).owner@ == (#[trigger] self@[j]).owner@
                            && self@[i].repo@ == self@[j].repo@) by {
                        assert(!(olds[i].owner@ == olds[j].owner@ && olds[i].repo@ == olds[j].repo@));
                    }
                }
            },
            None => {
                let ghost olds = self@;
                self.entries.push(entry);
                proof {
                    assert(final(self)@ =~= olds.push(final(self)@.last()));
                    assert forall|i: int, j: int| 0 <= i < j < self@.len()
                        implies !((#[trigger] self@[i]).owner@ == (#[trigger] self@[j]).owner@
                            && self@[i].repo@ == self@[j].repo@) by {
                        if j < self@.len() - 1 {
                            assert(!(olds[i].owner@ == olds[j].owner@
                                && olds[i].repo@ == olds[j].repo@));
                        } else {
                            assert(!entry_key_eq(olds[i], owner@, repo@));
                        }
                    }
                }
            },
        }
    }
}

/// The claim window of the signed assertion minted for the CI provider:
/// issued one minute into the past to absorb clock skew, expiring ten
/// minutes after issue.
pub fn jwt_claim_times(now: i64) -> (r: (i64, i64))
    requires
        i64::MIN + 60 <= now <= i64::MAX - 540,
    ensures
        r.0 == now - 60,
        r.1 == r.0 + 600,
{
    (now - 60, now + 540)
}

} // verus!
