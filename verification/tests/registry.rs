use identity_registry::record::{record_from_lookup, IdentityRecord};
use identity_registry::registry::{authorized_from_lookup, Registry, RegistryError};

fn s(text: &str) -> String {
    text.to_owned()
}

fn assert_default(rec: &IdentityRecord) {
    assert_eq!(rec.verified, false);
    assert_eq!(rec.tier, "");
    assert_eq!(rec.last_kyc_at, 0);
    assert_eq!(rec.last_liveness_at, 0);
    assert_eq!(rec.issuer_id, "");
    assert_eq!(rec.credential_hash, "");
}

#[test]
fn unwritten_account_reads_default() {
    let registry = Registry::init(s("deployer"));
    let rec = registry.get_verification(&s("never-written"));
    assert_default(&rec);
}

#[test]
fn deployer_is_authorized_after_init() {
    let mut registry = Registry::init(s("deployer"));
    assert!(registry.is_authorized(&s("deployer")));
    assert!(registry.add_issuer(&s("deployer"), s("issuer-a")).is_ok());
    assert!(registry.remove_issuer(&s("deployer"), s("issuer-a")).is_ok());
}

#[test]
fn unknown_account_is_not_authorized() {
    let registry = Registry::init(s("deployer"));
    assert!(!registry.is_authorized(&s("somebody-else")));
}

#[test]
fn unauthorized_add_issuer_is_refused() {
    let mut registry = Registry::init(s("deployer"));
    let result = registry.add_issuer(&s("intruder"), s("accomplice"));
    assert_eq!(result, Err(RegistryError::PermissionDenied));
    assert!(!registry.is_authorized(&s("accomplice")));
    assert!(registry.is_authorized(&s("deployer")));
}

#[test]
fn unauthorized_remove_issuer_is_refused() {
    let mut registry = Registry::init(s("deployer"));
    let result = registry.remove_issuer(&s("intruder"), s("deployer"));
    assert_eq!(result, Err(RegistryError::PermissionDenied));
    assert!(registry.is_authorized(&s("deployer")));
}

#[test]
fn unauthorized_set_verification_is_refused() {
    let mut registry = Registry::init(s("deployer"));
    let result = registry.set_verification(
        &s("intruder"),
        s("victim"),
        true,
        s("platinum"),
        7,
        8,
        s("intruder"),
        s("bogus"),
    );
    assert_eq!(result, Err(RegistryError::PermissionDenied));
    assert_default(&registry.get_verification(&s("victim")));
}

#[test]
fn set_then_get_round_trips_all_fields() {
    let mut registry = Registry::init(s("deployer"));
    let result = registry.set_verification(
        &s("deployer"),
        s("account-1"),
        true,
        s("silver"),
        123_456,
        123_789,
        s("deployer"),
        s("deadbeef"),
    );
    assert!(result.is_ok());
    let rec = registry.get_verification(&s("account-1"));
    assert_eq!(rec.verified, true);
    assert_eq!(rec.tier, "silver");
    assert_eq!(rec.last_kyc_at, 123_456);
    assert_eq!(rec.last_liveness_at, 123_789);
    assert_eq!(rec.issuer_id, "deployer");
    assert_eq!(rec.credential_hash, "deadbeef");
}

#[test]
fn rewrite_fully_replaces_the_record() {
    let mut registry = Registry::init(s("deployer"));
    registry
        .set_verification(&s("deployer"), s("acct"), true, s("gold"), 10, 11, s("deployer"), s("h1"))
        .unwrap();
    registry
        .set_verification(&s("deployer"), s("acct"), false, s(""), 0, 12, s("deployer"), s("h2"))
        .unwrap();
    let rec = registry.get_verification(&s("acct"));
    assert_eq!(rec.verified, false);
    assert_eq!(rec.tier, "");
    assert_eq!(rec.last_kyc_at, 0);
    assert_eq!(rec.last_liveness_at, 12);
    assert_eq!(rec.credential_hash, "h2");
}

#[test]
fn add_issuer_is_idempotent() {
    let mut registry = Registry::init(s("deployer"));
    registry.add_issuer(&s("deployer"), s("issuer-a")).unwrap();
    registry.add_issuer(&s("deployer"), s("issuer-a")).unwrap();
    assert!(registry.is_authorized(&s("issuer-a")));
    registry.remove_issuer(&s("deployer"), s("issuer-a")).unwrap();
    assert!(!registry.is_authorized(&s("issuer-a")));
}

#[test]
fn remove_issuer_is_idempotent() {
    let mut registry = Registry::init(s("deployer"));
    registry.add_issuer(&s("deployer"), s("issuer-a")).unwrap();
    registry.remove_issuer(&s("deployer"), s("issuer-a")).unwrap();
    registry.remove_issuer(&s("deployer"), s("issuer-a")).unwrap();
    assert!(!registry.is_authorized(&s("issuer-a")));
    assert!(registry.is_authorized(&s("deployer")));
}

#[test]
fn revocation_takes_effect_immediately() {
    let mut registry = Registry::init(s("deployer"));
    registry.add_issuer(&s("deployer"), s("issuer-a")).unwrap();
    registry.remove_issuer(&s("deployer"), s("issuer-a")).unwrap();
    let result = registry.add_issuer(&s("issuer-a"), s("accomplice"));
    assert_eq!(result, Err(RegistryError::PermissionDenied));
    let result = registry.set_verification(
        &s("issuer-a"),
        s("acct"),
        true,
        s("gold"),
        1,
        2,
        s("issuer-a"),
        s("h"),
    );
    assert_eq!(result, Err(RegistryError::PermissionDenied));
}

#[test]
fn self_revocation_of_last_issuer_locks_the_registry() {
    let mut registry = Registry::init(s("deployer"));
    registry.remove_issuer(&s("deployer"), s("deployer")).unwrap();
    assert!(!registry.is_authorized(&s("deployer")));
    let result = registry.add_issuer(&s("deployer"), s("deployer"));
    assert_eq!(result, Err(RegistryError::PermissionDenied));
}

#[test]
fn deployer_issuer_subject_scenario() {
    let mut registry = Registry::init(s("D"));
    registry.add_issuer(&s("D"), s("I")).unwrap();
    registry
        .set_verification(&s("I"), s("A"), true, s("gold"), 1000, 1001, s("I"), s("abc"))
        .unwrap();
    let rec = registry.get_verification(&s("A"));
    assert_eq!(rec.verified, true);
    assert_eq!(rec.tier, "gold");
    assert_eq!(rec.last_kyc_at, 1000);
    assert_eq!(rec.last_liveness_at, 1001);
    assert_eq!(rec.issuer_id, "I");
    assert_eq!(rec.credential_hash, "abc");
    registry.remove_issuer(&s("D"), s("I")).unwrap();
    let result = registry.set_verification(
        &s("I"),
        s("anyone"),
        false,
        s(""),
        0,
        0,
        s("I"),
        s(""),
    );
    assert_eq!(result, Err(RegistryError::PermissionDenied));
}

#[test]
fn tuple_encoding_round_trips() {
    let rec = IdentityRecord {
        verified: true,
        tier: s("gold"),
        last_kyc_at: 5,
        last_liveness_at: 6,
        issuer_id: s("I"),
        credential_hash: s("abc"),
    };
    let tuple = rec.to_tuple();
    assert_eq!(tuple, ((true, s("gold"), 5), (6, s("I"), s("abc"))));
    let back = IdentityRecord::from_tuple(tuple);
    assert_eq!(back.verified, rec.verified);
    assert_eq!(back.tier, rec.tier);
    assert_eq!(back.last_kyc_at, rec.last_kyc_at);
    assert_eq!(back.last_liveness_at, rec.last_liveness_at);
    assert_eq!(back.issuer_id, rec.issuer_id);
    assert_eq!(back.credential_hash, rec.credential_hash);
}

#[test]
fn unwritten_record_is_the_default() {
    assert_default(&IdentityRecord::unwritten());
}

#[test]
fn lookup_helpers_fail_closed() {
    assert_eq!(authorized_from_lookup(Some(true)), true);
    assert_eq!(authorized_from_lookup(Some(false)), false);
    assert_eq!(authorized_from_lookup(None), false);
    let rec = record_from_lookup(Some(((true, s("gold"), 3), (4, s("I"), s("abc")))));
    assert_eq!(rec.verified, true);
    assert_eq!(rec.tier, "gold");
    assert_eq!(rec.last_kyc_at, 3);
    assert_eq!(rec.last_liveness_at, 4);
    assert_eq!(rec.issuer_id, "I");
    assert_eq!(rec.credential_hash, "abc");
    assert_default(&record_from_lookup(None));
}
