use cng_store::cert::CertContext;
use cng_store::find::FindSession;
use cng_store::store::{CertStore, CertStoreType, CERT_FIND_ISSUER_STR, CERT_FIND_SUBJECT_STR};

/// Drives a session as the platform would for a store holding the given
/// matches: each probe yields the next transient handle, the duplicate call
/// yields an owned handle derived from it, and the last probe yields null.
fn drive(session: &mut FindSession, transients: &[usize]) {
    let mut expected_cursor: usize = 0;
    for &t in transients {
        assert_eq!(session.cursor(), expected_cursor);
        assert!(session.on_find_result(t));
        assert!(session.awaiting_duplicate());
        session.on_duplicated(owned_of(t));
        assert!(!session.awaiting_duplicate());
        expected_cursor = t;
    }
    assert!(!session.on_find_result(0));
    assert!(session.is_done());
}

/// The owned handle the platform double returns for a transient one.
fn owned_of(transient: usize) -> usize {
    transient + 1000
}

fn handles(certs: &[CertContext]) -> Vec<usize> {
    certs.iter().map(|c| c.inner()).collect()
}

#[test]
fn subject_search_starts_with_the_fixed_parameters() {
    let store = CertStore::from_native(Ok(5)).unwrap();
    let session = store.find_by_subject_str("Test");
    assert_eq!(session.store_handle(), 5);
    assert_eq!(session.find_type(), CERT_FIND_SUBJECT_STR);
    assert_eq!(session.text(), &vec![0x54, 0x65, 0x73, 0x74]);
    assert_eq!(session.cursor(), 0);
    assert!(!session.is_done());
    assert!(!session.awaiting_duplicate());
    store.close();
}

#[test]
fn issuer_search_uses_the_issuer_find_type() {
    let store = CertStore::from_native(Ok(5)).unwrap();
    let session = store.find_by_issuer_str("CA");
    assert_eq!(session.find_type(), CERT_FIND_ISSUER_STR);
    assert_eq!(session.text(), &vec![0x43, 0x41]);
    store.close();
}

#[test]
fn search_returns_every_match_exactly_once() {
    // N = 3 matching certificates, M non-matching ones the platform never
    // yields: the session collects exactly the three owned handles.
    let store = CertStore::from_native(Ok(9)).unwrap();
    let mut session = store.find_by_subject_str("S");
    drive(&mut session, &[21, 22, 23]);
    let certs = session.into_certs();
    assert_eq!(certs.len(), 3);
    assert_eq!(
        handles(&certs),
        vec![owned_of(21), owned_of(22), owned_of(23)]
    );
    store.close();
}

#[test]
fn returned_certificates_are_independently_destructible() {
    let store = CertStore::from_native(Ok(9)).unwrap();
    let mut session = store.find_by_subject_str("S");
    drive(&mut session, &[31, 32]);
    let mut certs = session.into_certs();

    // Destroying one returned certificate leaves the other and the store
    // untouched.
    let first = certs.remove(0);
    assert_eq!(first.into_raw(), owned_of(31));
    assert_eq!(certs[0].inner(), owned_of(32));
    assert_eq!(store.inner(), 9);
    store.close();
}

#[test]
fn repeated_search_yields_the_same_certificates() {
    let store = CertStore::from_native(Ok(9)).unwrap();

    let mut first = store.find_by_subject_str("S");
    drive(&mut first, &[41, 42, 43]);
    let mut second = store.find_by_subject_str("S");
    drive(&mut second, &[41, 42, 43]);

    let mut a = handles(&first.into_certs());
    let mut b = handles(&second.into_certs());
    assert_eq!(a.len(), b.len());
    // The platform's order is its own: compare as sets.
    a.sort();
    b.sort();
    assert_eq!(a, b);
    store.close();
}

#[test]
fn zero_matches_yield_an_empty_sequence_not_an_error() {
    let store = CertStore::from_native(Ok(9)).unwrap();
    let mut session = store.find_by_subject_str("S");
    drive(&mut session, &[]);
    let certs = session.into_certs();
    assert!(certs.is_empty());
    store.close();
}

#[test]
fn user_store_without_test_certificates_finds_nothing() {
    // open(CurrentUser, "MY") on a profile with no certificate named
    // "Test": the search ends on its first probe with an empty result.
    let req = CertStore::open(CertStoreType::CurrentUser, "MY");
    assert_eq!(req.flags, 0x14000);
    let store = CertStore::from_native(Ok(3)).unwrap();
    let mut session = store.find_by_subject_str("Test");
    drive(&mut session, &[]);
    assert_eq!(session.into_certs().len(), 0);
    store.close();
}

#[test]
fn imported_two_certificate_archive_matches_the_empty_substring() {
    // A store imported from a two-certificate archive under the password
    // "changeit": the empty substring matches all, so the search yields
    // exactly two certificates.
    let req = CertStore::from_pkcs12(vec![0x30, 0x82], "changeit");
    assert_eq!(req.blob_len, 2);
    let store = CertStore::from_native(Ok(17)).unwrap();
    let mut session = store.find_by_subject_str("");
    assert!(session.text().is_empty());
    drive(&mut session, &[61, 62]);
    let certs = session.into_certs();
    assert_eq!(certs.len(), 2);
    assert_eq!(handles(&certs), vec![owned_of(61), owned_of(62)]);
    store.close();
}

#[test]
fn the_cursor_is_the_previous_transient_handle_never_the_duplicate() {
    let store = CertStore::from_native(Ok(9)).unwrap();
    let mut session = store.find_by_subject_str("S");

    assert!(session.on_find_result(71));
    session.on_duplicated(owned_of(71));
    // The next probe must be fed the transient handle, not the duplicate.
    assert_eq!(session.cursor(), 71);
    assert_ne!(session.cursor(), owned_of(71));

    assert!(!session.on_find_result(0));
    assert_eq!(handles(&session.into_certs()), vec![owned_of(71)]);
    store.close();
}
