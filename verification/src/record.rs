//! The per-account identity-verification record and its mathematical view.

use vstd::prelude::*;

verus! {

/// Mathematical view of a verification record: the six attestation
/// fields, with strings abstracted to character sequences.
pub ghost struct RecordView {
    pub verified: bool,
    pub tier: Seq<char>,
    pub last_kyc_at: u64,
    pub last_liveness_at: u64,
    pub issuer_id: Seq<char>,
    pub credential_hash: Seq<char>,
}

impl RecordView {
    /// The record reported for an account that was never written:
    /// unverified, empty strings, zero timestamps.
    pub open spec fn empty() -> RecordView {
        RecordView {
            verified: false,
            tier: Seq::<char>::empty(),
            last_kyc_at: 0,
            last_liveness_at: 0,
            issuer_id: Seq::<char>::empty(),
            credential_hash: Seq::<char>::empty(),
        }
    }
}

/// One identity-verification record, as written by an issuer and read
/// back by anyone.
pub struct IdentityRecord {
    pub verified: bool,
    pub tier: String,
    pub last_kyc_at: u64,
    pub last_liveness_at: u64,
    pub issuer_id: String,
    pub credential_hash: String,
}

impl View for IdentityRecord {
    type V = RecordView;

    open spec fn view(&self) -> RecordView {
        RecordView {
            verified: self.verified,
            tier: self.tier@,
            last_kyc_at: self.last_kyc_at,
            last_liveness_at: self.last_liveness_at,
            issuer_id: self.issuer_id@,
            credential_hash: self.credential_hash@,
        }
    }
}

impl Clone for IdentityRecord {
    fn clone(&self) -> (r: Self)
        ensures
            r@ == self@,
    {
        IdentityRecord {
            verified: self.verified,
            tier: self.tier.clone(),
            last_kyc_at: self.last_kyc_at,
            last_liveness_at: self.last_liveness_at,
            issuer_id: self.issuer_id.clone(),
            credential_hash: self.credential_hash.clone(),
        }
    }
}

impl IdentityRecord {
    /// The default record for accounts that were never written.
    pub fn unwritten() -> (r: Self)
        ensures
            r@ == RecordView::empty(),
    {
        IdentityRecord {
            verified: false,
            tier: String::new(),
            last_kyc_at: 0,
            last_liveness_at: 0,
            issuer_id: String::new(),
            credential_hash: String::new(),
        }
    }

    /// Encode the record as the nested pair layout used on the wire.
    pub fn to_tuple(&self) -> (t: ((bool, String, u64), (u64, String, String)))
        ensures
            t.0.0 == self.verified,
            t.0.1@ == self.tier@,
            t.0.2 == self.last_kyc_at,
            t.1.0 == self.last_liveness_at,
            t.1.1@ == self.issuer_id@,
            t.1.2@ == self.credential_hash@,
    {
        (
            (self.verified, self.tier.clone(), self.last_kyc_at),
            (self.last_liveness_at, self.issuer_id.clone(), self.credential_hash.clone()),
        )
    }

    /// Decode a record from the nested pair layout used on the wire.
    pub fn from_tuple(value: ((bool, String, u64), (u64, String, String))) -> (r: Self)
        ensures
            r@ == (RecordView {
                verified: value.0.0,
                tier: value.0.1@,
                last_kyc_at: value.0.2,
                last_liveness_at: value.1.0,
                issuer_id: value.1.1@,
                credential_hash: value.1.2@,
            }),
    {
        let ((verified, tier, last_kyc_at), (last_liveness_at, issuer_id, credential_hash)) =
            value;
        IdentityRecord {
            verified,
            tier,
            last_kyc_at,
            last_liveness_at,
            issuer_id,
            credential_hash,
        }
    }
}

/// The default-on-miss reading of an identity-dictionary lookup, for
/// hosts that hold the dictionary themselves: the record decoded from
/// the stored tuple, or the default record when the lookup yielded
/// nothing.
pub fn record_from_lookup(
    value: Option<((bool, String, u64), (u64, String, String))>,
) -> (r: IdentityRecord)
    ensures
        match value {
            Some(t) => r@ == (RecordView {
                verified: t.0.0,
                tier: t.0.1@,
                last_kyc_at: t.0.2,
                last_liveness_at: t.1.0,
                issuer_id: t.1.1@,
                credential_hash: t.1.2@,
            }),
            None => r@ == RecordView::empty(),
        },
{
    match value {
        Some(t) => IdentityRecord::from_tuple(t),
        None => IdentityRecord::unwritten(),
    }
}

} // verus!
