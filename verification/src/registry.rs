//! The issuer registry and identity store, modeled as maps from
//! account identifiers to issuer flags and verification records.

use vstd::prelude::*;
use crate::record::{IdentityRecord, RecordView};

verus! {

/// The one domain error: a mutating operation was attempted by an
/// account that is not a currently-authorized issuer.
#[derive(Clone, Copy, Debug, PartialEq, Eq, Structural)]
pub enum RegistryError {
    PermissionDenied,
}

/// The registry state: the issuer dictionary and the identity
/// dictionary, each kept as a write log in which the latest entry for
/// a key is the one in force. Entries are never deleted; revocation
/// records a `false` flag.
pub struct Registry {
    issuer_entries: Vec<(String, bool)>,
    identity_entries: Vec<(String, IdentityRecord)>,
}

/// The map that a log of issuer entries denotes: each entry overwrites
/// the key it names, so later entries win.
pub closed spec fn issuer_map_of(s: Seq<(String, bool)>) -> Map<Seq<char>, bool>
    decreases s.len(),
{
    if s.len() == 0 {
        Map::<Seq<char>, bool>::empty()
    } else {
        issuer_map_of(s.drop_last()).insert(s.last().0@, s.last().1)
    }
}

/// The map that a log of identity entries denotes: each entry fully
/// replaces the record for the account it names, so later entries win.
pub closed spec fn record_map_of(s: Seq<(String, IdentityRecord)>) -> Map<Seq<char>, RecordView>
    decreases s.len(),
{
    if s.len() == 0 {
        Map::<Seq<char>, RecordView>::empty()
    } else {
        record_map_of(s.drop_last()).insert(s.last().0@, s.last().1@)
    }
}

impl Registry {
    /// The issuer dictionary: account identifier to authorized flag.
    pub closed spec fn issuers(self) -> Map<Seq<char>, bool> {
        issuer_map_of(self.issuer_entries@)
    }

    /// The identity dictionary: account identifier to stored record.
    pub closed spec fn records(self) -> Map<Seq<char>, RecordView> {
        record_map_of(self.identity_entries@)
    }

    /// The authorization predicate: an account is authorized exactly
    /// when the issuer dictionary holds `true` for it. Unknown
    /// accounts are never implicitly trusted.
    pub open spec fn authorized(self, caller: Seq<char>) -> bool {
        self.issuers().contains_key(caller) && self.issuers()[caller]
    }

    /// What a read of `account` observes: the stored record, or the
    /// default record when none was ever written.
    pub open spec fn record_of(self, account: Seq<char>) -> RecordView {
        if self.records().contains_key(account) {
            self.records()[account]
        } else {
            RecordView::empty()
        }
    }
}

/// In an issuer log whose entries after position `i` all name other
/// keys, the entry at `i` is the one in force for its key.
proof fn lemma_issuer_lookup_found(s: Seq<(String, bool)>, i: int, k: Seq<char>)
    requires
        0 <= i < s.len(),
        s[i].0@ == k,
        forall|j: int| i < j < s.len() ==> s[j].0@ != k,
    ensures
        issuer_map_of(s).contains_key(k),
        issuer_map_of(s)[k] == s[i].1,
    decreases s.len(),
{
    if i < s.len() - 1 {
        lemma_issuer_lookup_found(s.drop_last(), i, k);
    }
}

/// A key that no entry of an issuer log names is absent from the map
/// the log denotes.
proof fn lemma_issuer_lookup_absent(s: Seq<(String, bool)>, k: Seq<char>)
    requires
        forall|j: int| 0 <= j < s.len() ==> s[j].0@ != k,
    ensures
        !issuer_map_of(s).contains_key(k),
    decreases s.len(),
{
    if s.len() > 0 {
        lemma_issuer_lookup_absent(s.drop_last(), k);
    }
}

/// In an identity log whose entries after position `i` all name other
/// keys, the entry at `i` is the one in force for its key.
proof fn lemma_record_lookup_found(s: Seq<(String, IdentityRecord)>, i: int, k: Seq<char>)
    requires
        0 <= i < s.len(),
        s[i].0@ == k,
        forall|j: int| i < j < s.len() ==> s[j].0@ != k,
    ensures
        record_map_of(s).contains_key(k),
        record_map_of(s)[k] == s[i].1@,
    decreases s.len(),
{
    if i < s.len() - 1 {
        lemma_record_lookup_found(s.drop_last(), i, k);
    }
}

/// A key that no entry of an identity log names is absent from the map
/// the log denotes.
proof fn lemma_record_lookup_absent(s: Seq<(String, IdentityRecord)>, k: Seq<char>)
    requires
        forall|j: int| 0 <= j < s.len() ==> s[j].0@ != k,
    ensures
        !record_map_of(s).contains_key(k),
    decreases s.len(),
{
    if s.len() > 0 {
        lemma_record_lookup_absent(s.drop_last(), k);
    }
}

impl Registry {
    /// Create the registry: both dictionaries exist and are empty but
    /// for the deploying account, which becomes the first authorized
    /// issuer. Run once, at creation; the host prevents re-invocation.
    pub fn init(deployer: String) -> (r: Registry)
        ensures
            r.issuers() == Map::<Seq<char>, bool>::empty().insert(deployer@, true),
            r.records() == Map::<Seq<char>, RecordView>::empty(),
    {
        let ghost dk: Seq<char> = deployer@;
        let mut issuer_entries: Vec<(String, bool)> = Vec::new();
        issuer_entries.push((deployer, true));
        let identity_entries: Vec<(String, IdentityRecord)> = Vec::new();
        let r = Registry { issuer_entries, identity_entries };
        proof {
            assert(issuer_map_of(Seq::<(String, bool)>::empty()) =~= Map::<
                Seq<char>,
                bool,
            >::empty());
            assert(r.issuer_entries@.drop_last() =~= Seq::<(String, bool)>::empty());
            assert(r.issuers() =~= Map::<Seq<char>, bool>::empty().insert(dk, true));
            assert(r.records() =~= Map::<Seq<char>, RecordView>::empty());
        }
        r
    }

    /// The authorization check consulted by every mutating operation:
    /// the stored flag for `caller`, or `false` when absent. No side
    /// effects.
    pub fn is_authorized(&self, caller: &String) -> (b: bool)
        ensures
            b == self.authorized(caller@),
    {
        let mut i: usize = self.issuer_entries.len();
        while i > 0
            invariant
                i <= self.issuer_entries.len(),
                forall|j: int|
                    i <= j < self.issuer_entries@.len() ==> self.issuer_entries@[j].0@
                        != caller@,
            decreases i,
        {
            i = i - 1;
            let entry = &self.issuer_entries[i];
            if entry.0 == *caller {
                proof {
                    lemma_issuer_lookup_found(self.issuer_entries@, i as int, caller@);
                }
                return entry.1;
            }
        }
        proof {
            lemma_issuer_lookup_absent(self.issuer_entries@, caller@);
        }
        false
    }

    /// Grant the issuer flag to `pub_key`. Only a currently-authorized
    /// issuer may call; an unauthorized caller is refused with no
    /// state change. Re-adding an authorized issuer changes nothing in
    /// effect.
    pub fn add_issuer(&mut self, caller: &String, pub_key: String) -> (r: Result<
        (),
        RegistryError,
    >)
        ensures
            match r {
                Ok(()) => old(self).authorized(caller@) && final(self).issuers() == old(
                    self,
                ).issuers().insert(pub_key@, true) && final(self).records() == old(self).records(),
                Err(e) => !old(self).authorized(caller@) && e == RegistryError::PermissionDenied
                    && *final(self) == *old(self),
            },
    {
        if !self.is_authorized(caller) {
            return Err(RegistryError::PermissionDenied);
        }
        let ghost k: Seq<char> = pub_key@;
        self.issuer_entries.push((pub_key, true));
        proof {
            assert(self.issuer_entries@.drop_last() =~= old(self).issuer_entries@);
            assert(self.issuers() =~= old(self).issuers().insert(k, true));
        }
        Ok(())
    }

    /// Revoke the issuer flag of `pub_key`; the entry stays, recorded
    /// as `false`. Only a currently-authorized issuer may call; an
    /// unauthorized caller is refused with no state change. A caller
    /// may revoke itself, the last issuer included.
    pub fn remove_issuer(&mut self, caller: &String, pub_key: String) -> (r: Result<
        (),
        RegistryError,
    >)
        ensures
            match r {
                Ok(()) => old(self).authorized(caller@) && final(self).issuers() == old(
                    self,
                ).issuers().insert(pub_key@, false) && final(self).records() == old(self).records(),
                Err(e) => !old(self).authorized(caller@) && e == RegistryError::PermissionDenied
                    && *final(self) == *old(self),
            },
    {
        if !self.is_authorized(caller) {
            return Err(RegistryError::PermissionDenied);
        }
        let ghost k: Seq<char> = pub_key@;
        self.issuer_entries.push((pub_key, false));
        proof {
            assert(self.issuer_entries@.drop_last() =~= old(self).issuer_entries@);
            assert(self.issuers() =~= old(self).issuers().insert(k, false));
        }
        Ok(())
    }

    /// Write the full record for `account_hash`, replacing any earlier
    /// one. Any well-typed fields are accepted verbatim. Only a
    /// currently-authorized issuer may call; an unauthorized caller is
    /// refused with no state change.
    pub fn set_verification(
        &mut self,
        caller: &String,
        account_hash: String,
        verified: bool,
        tier: String,
        last_kyc_at: u64,
        last_liveness_at: u64,
        issuer_id: String,
        credential_hash: String,
    ) -> (r: Result<(), RegistryError>)
        ensures
            match r {
                Ok(()) => old(self).authorized(caller@) && final(self).records() == old(
                    self,
                ).records().insert(
                    account_hash@,
                    (RecordView {
                        verified,
                        tier: tier@,
                        last_kyc_at,
                        last_liveness_at,
                        issuer_id: issuer_id@,
                        credential_hash: credential_hash@,
                    }),
                ) && final(self).issuers() == old(self).issuers(),
                Err(e) => !old(self).authorized(caller@) && e == RegistryError::PermissionDenied
                    && *final(self) == *old(self),
            },
    {
        if !self.is_authorized(caller) {
            return Err(RegistryError::PermissionDenied);
        }
        let record = IdentityRecord {
            verified,
            tier,
            last_kyc_at,
            last_liveness_at,
            issuer_id,
            credential_hash,
        };
        let ghost k: Seq<char> = account_hash@;
        let ghost v: RecordView = record@;
        self.identity_entries.push((account_hash, record));
        proof {
            assert(self.identity_entries@.drop_last() =~= old(self).identity_entries@);
            assert(self.records() =~= old(self).records().insert(k, v));
        }
        Ok(())
    }

    /// Read the record for `account_hash`: the stored record, or the
    /// default empty/unverified record when none exists. Public;
    /// never fails.
    pub fn get_verification(&self, account_hash: &String) -> (r: IdentityRecord)
        ensures
            r@ == self.record_of(account_hash@),
    {
        let mut i: usize = self.identity_entries.len();
        while i > 0
            invariant
                i <= self.identity_entries.len(),
                forall|j: int|
                    i <= j < self.identity_entries@.len() ==> self.identity_entries@[j].0@
                        != account_hash@,
            decreases i,
        {
            i = i - 1;
            let entry = &self.identity_entries[i];
            if entry.0 == *account_hash {
                proof {
                    lemma_record_lookup_found(self.identity_entries@, i as int, account_hash@);
                }
                return entry.1.clone();
            }
        }
        proof {
            lemma_record_lookup_absent(self.identity_entries@, account_hash@);
        }
        IdentityRecord::unwritten()
    }
}

/// The fail-closed reading of an issuer-dictionary lookup, for hosts
/// that hold the dictionary themselves: the stored flag, or `false`
/// when the lookup yielded nothing — unknown accounts are never
/// implicitly trusted.
pub fn authorized_from_lookup(flag: Option<bool>) -> (b: bool)
    ensures
        b == (flag == Some(true)),
{
    match flag {
        Some(f) => f,
        None => false,
    }
}

/// An account never written reads back as the default record:
/// absence is a valid state, surfaced as the empty/unverified record,
/// never as an error.
pub proof fn lemma_unwritten_reads_default(r: Registry, account: Seq<char>)
    requires
        !r.records().contains_key(account),
    ensures
        r.record_of(account) == RecordView::empty(),
{
}

/// Right after `init`, the deploying account is authorized; by the
/// contracts of `add_issuer`, `remove_issuer` and `set_verification`,
/// its mutating calls therefore succeed.
pub proof fn lemma_init_authorizes_deployer(r: Registry, deployer: Seq<char>)
    requires
        r.issuers() == Map::<Seq<char>, bool>::empty().insert(deployer, true),
    ensures
        r.authorized(deployer),
{
}

/// A write followed by a read of the same account returns exactly the
/// written fields: `after` is any state whose records are those of
/// `before` with `rec` written for `account`, which is what a
/// successful `set_verification` ensures.
pub proof fn lemma_set_then_get(
    before: Registry,
    after: Registry,
    account: Seq<char>,
    rec: RecordView,
)
    requires
        after.records() == before.records().insert(account, rec),
    ensures
        after.record_of(account) == rec,
{
}

/// Granting or revoking the same issuer twice leaves the same state
/// as doing it once: `add_issuer` (`flag == true`) and
/// `remove_issuer` (`flag == false`) are idempotent in effect. `r1`
/// is the state after one application to `r0`, `r2` the state after a
/// second, each as the operations' contracts describe.
pub proof fn lemma_issuer_flag_idempotent(
    r0: Registry,
    r1: Registry,
    r2: Registry,
    key: Seq<char>,
    flag: bool,
)
    requires
        r1.issuers() == r0.issuers().insert(key, flag),
        r2.issuers() == r1.issuers().insert(key, flag),
        r1.records() == r0.records(),
        r2.records() == r1.records(),
    ensures
        r2.issuers() == r1.issuers(),
        r2.records() == r1.records(),
{
    assert(r2.issuers() =~= r1.issuers());
}

/// Revocation takes effect immediately: once the registry records
/// `false` for `key` — what a successful `remove_issuer` ensures —
/// `key` is not authorized, so by the mutating operations' contracts
/// its next call to any of them is refused.
pub proof fn lemma_revocation_immediate(before: Registry, after: Registry, key: Seq<char>)
    requires
        after.issuers() == before.issuers().insert(key, false),
    ensures
        !after.authorized(key),
{
}

} // verus!
