use ebe_nuka::certificate::{
    created_certificate, is_expiry_cut_short, load_certificate, read_or_create_certificate,
    stored_certificate, CertificateError,
};
use libp2p_webrtc::tokio::Certificate;

fn expiry_block(contents: &str) -> String {
    format!("-----BEGIN EXPIRES-----\n{contents}\n-----END EXPIRES-----\n")
}

#[test]
fn new_certificate_is_stored() {
    let loaded = read_or_create_certificate(None).ok().unwrap();
    let stored = loaded.to_store.unwrap();
    assert_eq!(stored, loaded.certificate.serialize_pem());
    assert!(stored.contains("BEGIN EXPIRES"));
    assert!(!is_expiry_cut_short(&stored));
}

#[test]
fn certificate_is_the_same_in_the_next_run() {
    let first = load_certificate(None).unwrap().ok().unwrap();
    let second = load_certificate(first.to_store).unwrap().ok().unwrap();
    assert_eq!(first.certificate.serialize_pem(), second.certificate.serialize_pem());
    assert_eq!(first.certificate.fingerprint(), second.certificate.fingerprint());
    assert!(second.to_store.is_none());
}

#[test]
fn new_certificates_differ() {
    let first = load_certificate(None).unwrap().ok().unwrap();
    let second = load_certificate(None).unwrap().ok().unwrap();
    assert_ne!(first.certificate.fingerprint(), second.certificate.fingerprint());
}

#[test]
fn stored_text_that_is_no_certificate() {
    let texts = [
        String::new(),
        "no certificate".to_owned(),
        "-----BEGIN OTHER-----\nAAAA\n-----END OTHER-----\n".to_owned(),
        expiry_block("AAAAAAAAAAA="),
        expiry_block(""),
    ];
    for text in texts {
        assert!(!is_expiry_cut_short(&text));
        let res = load_certificate(Some(text));
        assert!(matches!(res, Some(Err(CertificateError::Unreadable(_)))));
    }
}

#[test]
fn stored_text_that_ends_within_the_expiry() {
    for contents in ["AAAA", "AAAAAAAAAA=="] {
        let text = expiry_block(contents);
        assert!(is_expiry_cut_short(&text));
        assert!(load_certificate(Some(text)).is_none());
    }
}

#[test]
fn only_the_first_block_counts() {
    let text = format!(
        "{}\n{}",
        "-----BEGIN OTHER-----\nAAAA\n-----END OTHER-----\n",
        expiry_block("AAAA")
    );
    assert!(!is_expiry_cut_short(&text));
    let text = format!("{}\n{}", expiry_block("AAAA"), expiry_block("AAAAAAAAAAA="));
    assert!(is_expiry_cut_short(&text));
}

#[test]
fn read_certificate_is_used() {
    let certificate = Certificate::generate(&mut rand::thread_rng()).unwrap();
    let fingerprint = certificate.fingerprint();
    let loaded = stored_certificate(Ok(certificate)).ok().unwrap();
    assert_eq!(loaded.certificate.fingerprint(), fingerprint);
    assert!(loaded.to_store.is_none());
    let error = Certificate::from_pem("").err().unwrap();
    assert!(matches!(stored_certificate(Err(error)), Err(CertificateError::Unreadable(_))));
}

#[test]
fn generated_certificate_is_stored() {
    let certificate = Certificate::generate(&mut rand::thread_rng()).unwrap();
    let pem = certificate.serialize_pem();
    let loaded = created_certificate(Ok(certificate)).ok().unwrap();
    assert_eq!(loaded.certificate.serialize_pem(), pem);
    assert_eq!(loaded.to_store, Some(pem));
    let error = Certificate::from_pem("").err().unwrap();
    assert!(matches!(created_certificate(Err(error)), Err(CertificateError::Ungenerated(_))));
}

#[test]
fn stored_certificate_serves_every_run() {
    let stored = load_certificate(None).unwrap().ok().unwrap().to_store;
    let first = load_certificate(stored.clone()).unwrap().ok().unwrap();
    let second = load_certificate(stored).unwrap().ok().unwrap();
    assert_eq!(first.certificate.serialize_pem(), second.certificate.serialize_pem());
    assert!(first.to_store.is_none() && second.to_store.is_none());
}
