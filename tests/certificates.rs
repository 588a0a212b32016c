use std::collections::HashMap;

use ruostepurkki::certificates::{cert_outcome, check_cert, CertDecision, PinLookup, ServerCertError};

fn check(store: &mut HashMap<String, Vec<u8>>, host: &str, digest: &Vec<u8>) -> Result<(), ServerCertError> {
    let known = match store.get(host) {
        Some(d) => PinLookup::Pinned(d.clone()),
        None => PinLookup::NotPinned,
    };
    let d = check_cert(Some(digest), &known);
    if d == CertDecision::PinNew {
        store.insert(host.to_string(), digest.clone());
    }
    cert_outcome(d, true)
}

#[test]
fn tofu_same_digest_twice() {
    let mut store = HashMap::new();
    let d1 = vec![1u8; 32];
    assert_eq!(check(&mut store, "example.org", &d1), Ok(()));
    assert_eq!(check(&mut store, "example.org", &d1), Ok(()));
}

#[test]
fn tofu_changed_digest_rejected() {
    let mut store = HashMap::new();
    let d1 = vec![1u8; 32];
    let mut d2 = d1.clone();
    d2[31] = 2;
    assert_eq!(check(&mut store, "example.org", &d1), Ok(()));
    assert_eq!(check(&mut store, "example.org", &d2), Err(ServerCertError::CertChanged));
    assert_eq!(check(&mut store, "other.org", &d2), Ok(()));
}

#[test]
fn cert_missing_or_store_down() {
    let d = vec![7u8; 32];
    assert_eq!(check_cert(None, &PinLookup::NotPinned), CertDecision::Rejected(ServerCertError::CertNotPresent));
    assert_eq!(check_cert(Some(&d), &PinLookup::Unavailable), CertDecision::Rejected(ServerCertError::StoreUnavailable));
    assert_eq!(check_cert(Some(&d), &PinLookup::Pinned(vec![7u8; 31])), CertDecision::Rejected(ServerCertError::CertChanged));
    assert_eq!(check_cert(Some(&d), &PinLookup::Pinned(d.clone())), CertDecision::Trusted);
    assert_eq!(cert_outcome(CertDecision::PinNew, false), Err(ServerCertError::StoreUnavailable));
    assert_eq!(cert_outcome(CertDecision::Rejected(ServerCertError::CertChanged), true), Err(ServerCertError::CertChanged));
}
