use ring::signature::{EcdsaKeyPair, KeyPair, ECDSA_P256_SHA256_ASN1_SIGNING};

use ausgabenzettel::{
    alpn_protocols, config_from_der, config_from_pem, io_other, select_private_key, TlsError,
};

const BAD_PEM: &str = "-----BEGIN CERTIFICATE-----\n!!!!\n-----END CERTIFICATE-----\n";

fn pkcs8_like_key() -> Vec<u8> {
    vec![0x30, 0x05, 0x02, 0x01, 0x00, 0x30, 0x00]
}

/// A one-key PEM file whose key is only shaped like PKCS#8.
fn key_pem() -> Vec<u8> {
    pem("PRIVATE KEY", &pkcs8_like_key())
}

fn err_of<T>(r: Result<T, TlsError>) -> TlsError {
    match r {
        Ok(_) => panic!("expected an error"),
        Err(e) => e,
    }
}

#[test]
fn key_file_without_keys_is_refused() {
    let r = config_from_pem(Vec::new(), Vec::new(), Vec::new());
    assert_eq!(err_of(r), TlsError::NoPrivateKey);
}

#[test]
fn key_file_with_two_keys_is_refused() {
    let two = [key_pem(), key_pem()].concat();
    let r = config_from_pem(Vec::new(), two, Vec::new());
    assert_eq!(err_of(r), TlsError::MultiplePrivateKeys);
}

#[test]
fn malformed_certificate_is_refused() {
    let r = config_from_pem(BAD_PEM.as_bytes().to_vec(), key_pem(), Vec::new());
    assert_eq!(err_of(r), TlsError::CertificateParse);
}

#[test]
fn malformed_trust_bundle_is_refused() {
    let r = config_from_pem(Vec::new(), key_pem(), BAD_PEM.as_bytes().to_vec());
    assert_eq!(err_of(r), TlsError::TrustBundleParse);
}

#[test]
fn one_key_is_decoded_and_passed_on() {
    assert_eq!(
        select_private_key(&vec![None, Some(pkcs8_like_key()), None]),
        Ok(pkcs8_like_key())
    );
}

#[test]
fn key_selection_counts_decoded_keys_only() {
    assert_eq!(select_private_key(&vec![]), Err(TlsError::NoPrivateKey));
    assert_eq!(select_private_key(&vec![None, None]), Err(TlsError::NoPrivateKey));
    assert_eq!(
        select_private_key(&vec![Some(vec![1]), None, Some(vec![2])]),
        Err(TlsError::MultiplePrivateKeys)
    );
}

#[test]
fn unknown_key_format_is_refused() {
    let r = config_from_der(Vec::new(), vec![1, 2, 3], Vec::new());
    assert_eq!(err_of(r), TlsError::InvalidPrivateKey);
}

#[test]
fn malformed_trust_anchor_is_refused() {
    let r = config_from_der(Vec::new(), pkcs8_like_key(), vec![vec![1, 2, 3]]);
    assert_eq!(err_of(r), TlsError::UntrustedAnchor);
}

#[test]
fn empty_trust_bundle_gives_no_verifier() {
    let r = config_from_der(Vec::new(), pkcs8_like_key(), Vec::new());
    assert_eq!(err_of(r), TlsError::ClientVerifier);
}

#[test]
fn http2_is_preferred() {
    assert_eq!(alpn_protocols(), vec![b"h2".to_vec(), b"http/1.1".to_vec()]);
}

#[test]
fn io_error_carries_message() {
    let e = io_other(TlsError::NoPrivateKey);
    assert_eq!(e.kind(), std::io::ErrorKind::Other);
    assert_eq!(e.to_string(), "The private key file contained no keys");
    assert_eq!(TlsError::MultiplePrivateKeys.message().is_empty(), false);
}

#[test]
fn key_formats_are_recognised_by_their_first_bytes() {
    for key in [
        vec![0x30, 0x03, 0x02, 0x01, 0x00],
        vec![0x30, 0x03, 0x02, 0x01, 0x01],
        vec![0x30, 0x81, 0x03, 0x02, 0x01, 0x00],
    ] {
        let r = config_from_der(Vec::new(), key, Vec::new());
        assert_eq!(err_of(r), TlsError::ClientVerifier);
    }
    for key in [
        vec![0x30],
        vec![0x31, 0x03, 0x02, 0x01, 0x00],
        vec![0x30, 0x85, 0x00],
        vec![0x30, 0x03, 0x02, 0x01, 0x02],
    ] {
        let r = config_from_der(Vec::new(), key, Vec::new());
        assert_eq!(err_of(r), TlsError::InvalidPrivateKey);
    }
}

#[test]
fn io_error_is_other_with_each_message() {
    let e = io_other(TlsError::UntrustedAnchor);
    assert_eq!(e.kind(), std::io::ErrorKind::Other);
    assert_eq!(e.to_string(), TlsError::UntrustedAnchor.message());
}

fn der(tag: u8, content: &[u8]) -> Vec<u8> {
    let mut out = vec![tag];
    let n = content.len();
    if n < 128 {
        out.push(n as u8);
    } else if n < 256 {
        out.extend_from_slice(&[0x81, n as u8]);
    } else {
        out.extend_from_slice(&[0x82, (n >> 8) as u8, n as u8]);
    }
    out.extend_from_slice(content);
    out
}

fn seq(parts: &[Vec<u8>]) -> Vec<u8> {
    der(0x30, &parts.concat())
}

fn pem(label: &str, bytes: &[u8]) -> Vec<u8> {
    let body = data_encoding::BASE64.encode(bytes);
    format!("-----BEGIN {label}-----\n{body}\n-----END {label}-----\n").into_bytes()
}

/// A fresh P-256 key (PKCS#8) and a self-signed certificate for it, built at test time.
fn self_signed() -> (Vec<u8>, Vec<u8>) {
    let rng = ring::rand::SystemRandom::new();
    let pkcs8 = EcdsaKeyPair::generate_pkcs8(&ECDSA_P256_SHA256_ASN1_SIGNING, &rng).unwrap();
    let pair =
        EcdsaKeyPair::from_pkcs8(&ECDSA_P256_SHA256_ASN1_SIGNING, pkcs8.as_ref(), &rng).unwrap();

    let ecdsa_sha256 = seq(&[der(0x06, &[0x2A, 0x86, 0x48, 0xCE, 0x3D, 0x04, 0x03, 0x02])]);
    let name = seq(&[der(
        0x31,
        &seq(&[der(0x06, &[0x55, 0x04, 0x03]), der(0x0C, b"localhost")]),
    )]);
    let validity = seq(&[der(0x17, b"250101000000Z"), der(0x17, b"491231235959Z")]);
    let mut public_key = vec![0x00];
    public_key.extend_from_slice(pair.public_key().as_ref());
    let spki = seq(&[
        seq(&[
            der(0x06, &[0x2A, 0x86, 0x48, 0xCE, 0x3D, 0x02, 0x01]),
            der(0x06, &[0x2A, 0x86, 0x48, 0xCE, 0x3D, 0x03, 0x01, 0x07]),
        ]),
        der(0x03, &public_key),
    ]);
    let tbs = seq(&[
        der(0xA0, &der(0x02, &[0x02])),
        der(0x02, &[0x01]),
        ecdsa_sha256.clone(),
        name.clone(),
        validity,
        name,
        spki,
    ]);
    let mut signature = vec![0x00];
    signature.extend_from_slice(pair.sign(&rng, &tbs).unwrap().as_ref());
    let cert = seq(&[tbs, ecdsa_sha256, der(0x03, &signature)]);
    (pem("CERTIFICATE", &cert), pem("PRIVATE KEY", pkcs8.as_ref()))
}

#[test]
fn valid_material_gives_a_config_preferring_http2() {
    let (cert, key) = self_signed();
    match config_from_pem(cert.clone(), key, cert) {
        Ok(c) => assert_eq!(c.alpn_protocols, vec![b"h2".to_vec(), b"http/1.1".to_vec()]),
        Err(e) => panic!("expected a configuration, got {:?}", e),
    }
}

#[test]
fn valid_key_with_empty_trust_bundle_gives_no_verifier() {
    let (cert, key) = self_signed();
    let r = config_from_pem(cert, key, Vec::new());
    assert_eq!(err_of(r), TlsError::ClientVerifier);
}
