use vstd::prelude::*;

use rustls::pki_types::pem::PemObject;
use rustls::pki_types::{CertificateDer, PrivateKeyDer};
use rustls::server::WebPkiClientVerifier;
use rustls::{RootCertStore, ServerConfig};

verus! {

#[verifier::external_type_specification]
#[verifier::external_body]
pub struct ExServerConfig(rustls::ServerConfig);

#[verifier::external_type_specification]
#[verifier::external_body]
pub struct ExRootCertStore(rustls::RootCertStore);

#[verifier::external_type_specification]
#[verifier::external_body]
pub struct ExPrivateKeyDer<'a>(rustls::pki_types::PrivateKeyDer<'a>);

#[verifier::external_type_specification]
#[verifier::external_body]
pub struct ExIoError(std::io::Error);

/// Why a TLS server configuration could not be built.
#[derive(PartialEq, Eq, Structural, Clone, Copy, Debug)]
pub enum TlsError {
    /// The server certificate chain is not a sequence of PEM certificates.
    CertificateParse,
    /// The client trust bundle is not a sequence of PEM certificates.
    TrustBundleParse,
    /// The key material holds no private key.
    NoPrivateKey,
    /// The key material holds more than one private key.
    MultiplePrivateKeys,
    /// The private key is in no format that is understood.
    InvalidPrivateKey,
    /// A certificate of the trust bundle cannot serve as a trust anchor.
    UntrustedAnchor,
    /// No client verifier could be built over the trust anchors.
    ClientVerifier,
    /// The certificate chain and key were refused as the server's identity.
    ServerIdentity,
}

/// The sentence describing an error.
pub open spec fn tls_message(e: TlsError) -> Seq<char> {
    match e {
        TlsError::CertificateParse => "failed to parse certificate"@,
        TlsError::TrustBundleParse => "failed to parse client_ca"@,
        TlsError::NoPrivateKey => "The private key file contained no keys"@,
        TlsError::MultiplePrivateKeys => "The private key file contained multiple keys (it must only contain one)"@,
        TlsError::InvalidPrivateKey => "unknown or invalid key format"@,
        TlsError::UntrustedAnchor => "a client_ca certificate is not a valid trust anchor"@,
        TlsError::ClientVerifier => "unable to build the client certificate verifier"@,
        TlsError::ServerIdentity => "the certificate and key were refused"@,
    }
}

impl TlsError {
    /// A sentence describing the error.
    pub fn message(&self) -> (r: String)
        ensures
            r@ == tls_message(*self),
    {
        let r = match self {
            TlsError::CertificateParse => "failed to parse certificate",
            TlsError::TrustBundleParse => "failed to parse client_ca",
            TlsError::NoPrivateKey => "The private key file contained no keys",
            TlsError::MultiplePrivateKeys => "The private key file contained multiple keys (it must only contain one)",
            TlsError::InvalidPrivateKey => "unknown or invalid key format",
            TlsError::UntrustedAnchor => "a client_ca certificate is not a valid trust anchor",
            TlsError::ClientVerifier => "unable to build the client certificate verifier",
            TlsError::ServerIdentity => "the certificate and key were refused",
        };
        proof {
            reveal_strlit("failed to parse certificate");
            reveal_strlit("failed to parse client_ca");
            reveal_strlit("The private key file contained no keys");
            reveal_strlit("The private key file contained multiple keys (it must only contain one)");
            reveal_strlit("unknown or invalid key format");
            reveal_strlit("a client_ca certificate is not a valid trust anchor");
            reveal_strlit("unable to build the client certificate verifier");
            reveal_strlit("the certificate and key were refused");
        }
        r.to_owned()
    }
}

/// The certificates decoded from PEM text, or `None` where a section fails to decode.
pub uninterp spec fn pem_certificates_of(pem: Seq<u8>) -> Option<Seq<Seq<u8>>>;

/// The items PEM text yields when private keys are read from it, in order: the
/// DER bytes of each private-key section, or `None` for a section (of any kind)
/// that fails to decode or a malformed BEGIN line.
pub uninterp spec fn pem_private_keys_of(pem: Seq<u8>) -> Seq<Option<Seq<u8>>>;

/// Where a DER SEQUENCE's contents start: after the tag and a short length, or
/// after the tag, the long-form length byte and the length bytes it announces.
pub open spec fn der_contents_start(der: Seq<u8>) -> int {
    if der[1] < 128 {
        2
    } else {
        2 + (der[1] - 128)
    }
}

/// Whether DER bytes are recognised as a private key: a SEQUENCE whose contents
/// open with a one-byte INTEGER version followed by a SEQUENCE (PKCS#8), or with
/// version 0 (PKCS#1) or version 1 (SEC1).
pub open spec fn key_der_accepted(der: Seq<u8>) -> bool {
    &&& der.len() >= 2
    &&& der[0] == 0x30
    &&& der_contents_start(der) <= der.len()
    &&& {
        let rest = der.subrange(der_contents_start(der), der.len() as int);
        ||| rest.len() >= 4 && rest[0] == 0x02 && rest[1] == 0x01 && rest[3] == 0x30
        ||| rest.len() >= 3 && rest[0] == 0x02 && rest[1] == 0x01 && (rest[2] == 0x00 || rest[2] == 0x01)
    }
}

/// Whether DER bytes are a certificate usable as a trust anchor.
pub uninterp spec fn anchor_accepted(der: Seq<u8>) -> bool;

/// How many trust anchors a root store holds.
pub uninterp spec fn root_count(roots: RootCertStore) -> nat;

/// The application protocols a server configuration offers, in order.
pub uninterp spec fn alpn_of(config: ServerConfig) -> Seq<Seq<u8>>;

/// Whether an I/O error is of kind `Other`.
pub uninterp spec fn io_error_is_other(e: std::io::Error) -> bool;

/// The text an I/O error displays.
pub uninterp spec fn io_error_text(e: std::io::Error) -> Seq<char>;

/// HTTP/2, then HTTP/1.1, as protocol identifiers.
pub open spec fn preferred_protocols() -> Seq<Seq<u8>> {
    seq![seq![104u8, 50u8], seq![104u8, 116u8, 116u8, 112u8, 47u8, 49u8, 46u8, 49u8]]
}

pub open spec fn ders_view(v: Seq<Vec<u8>>) -> Seq<Seq<u8>> {
    v.map_values(|d: Vec<u8>| d@)
}

pub open spec fn key_items_view(v: Seq<Option<Vec<u8>>>) -> Seq<Option<Seq<u8>>> {
    v.map_values(
        |k: Option<Vec<u8>>|
            match k {
                Some(d) => Some(d@),
                None => None,
            },
    )
}

/// How many key sections decoded.
pub open spec fn key_count(items: Seq<Option<Seq<u8>>>) -> nat
    decreases items.len(),
{
    if items.len() == 0 {
        0
    } else {
        key_count(items.drop_last()) + if items.last() is Some {
            1nat
        } else {
            0nat
        }
    }
}

/// The first key section that decoded.
pub open spec fn first_key(items: Seq<Option<Seq<u8>>>) -> Option<Seq<u8>>
    decreases items.len(),
{
    if items.len() == 0 {
        None
    } else {
        match first_key(items.drop_last()) {
            Some(k) => Some(k),
            None => items.last(),
        }
    }
}

pub proof fn lemma_key_count_prefix(items: Seq<Option<Seq<u8>>>, i: int)
    requires
        0 <= i <= items.len(),
    ensures
        key_count(items.take(i)) <= key_count(items),
    decreases items.len(),
{
    if i < items.len() {
        lemma_key_count_prefix(items.drop_last(), i);
        assert(items.drop_last().take(i) =~= items.take(i));
    } else {
        assert(items.take(i) =~= items);
    }
}

/// What building from DER material gives, for a key and trust anchors: a bad
/// key first, then a refused anchor, then an empty set of anchors; past those,
/// success offering HTTP/2 then HTTP/1.1, unless the identity is refused.
pub open spec fn der_outcome(r: Result<ServerConfig, TlsError>, key: Seq<u8>, cas: Seq<Seq<u8>>) -> bool {
    if !key_der_accepted(key) {
        r is Err && r->Err_0 == TlsError::InvalidPrivateKey
    } else if exists|i: int| 0 <= i < cas.len() && !anchor_accepted(#[trigger] cas[i]) {
        r is Err && r->Err_0 == TlsError::UntrustedAnchor
    } else if cas.len() == 0 {
        r is Err && r->Err_0 == TlsError::ClientVerifier
    } else {
        &&& r is Err ==> r->Err_0 == TlsError::ServerIdentity
        &&& r is Ok ==> alpn_of(r->Ok_0) == preferred_protocols()
    }
}

/// Relies on CertificateDer::pem_slice_iter: the certificate sections of the
/// text, collected until the first one that fails to decode.
#[verifier::external_body]
fn pem_certificates(pem: &[u8]) -> (r: Option<Vec<Vec<u8>>>)
    ensures
        match pem_certificates_of(pem@) {
            Some(s) => r is Some && ders_view(r->0@) == s,
            None => r is None,
        },
{
    CertificateDer::pem_slice_iter(pem)
        .collect::<Result<Vec<_>, _>>()
        .ok()
        .map(|v| v.into_iter().map(|c| c.to_vec()).collect())
}

/// Relies on PrivateKeyDer's PemObject::pem_slice_iter: each private-key
/// section of the text, as its DER bytes or as a decoding failure.
#[verifier::external_body]
fn pem_private_keys(pem: &[u8]) -> (r: Vec<Option<Vec<u8>>>)
    ensures
        key_items_view(r@) == pem_private_keys_of(pem@),
{
    <PrivateKeyDer<'static> as PemObject>::pem_slice_iter(pem)
        .map(|item| item.ok().map(|k| k.secret_der().to_vec()))
        .collect()
}

/// Relies on PrivateKeyDer::try_from(Vec<u8>), which goes by
/// PrivateKeyDer::try_from(&[u8]): recognises the key format from its first bytes.
#[verifier::external_body]
fn private_key_from_der(der: Vec<u8>) -> (r: Option<PrivateKeyDer<'static>>)
    ensures
        (r is Some) == key_der_accepted(der@),
{
    PrivateKeyDer::try_from(der).ok()
}

/// Relies on RootCertStore::empty: a store without trust anchors.
#[verifier::external_body]
fn empty_root_store() -> (r: RootCertStore)
    ensures
        root_count(r) == 0,
{
    RootCertStore::empty()
}

/// Relies on RootCertStore::add: succeeds when the certificate parses as a trust
/// anchor, which is then pushed onto the store; otherwise the store is unchanged.
#[verifier::external_body]
fn add_trust_anchor(roots: &mut RootCertStore, der: Vec<u8>) -> (r: bool)
    ensures
        r == anchor_accepted(der@),
        r ==> root_count(*final(roots)) == root_count(*old(roots)) + 1,
        !r ==> root_count(*final(roots)) == root_count(*old(roots)),
{
    roots.add(CertificateDer::from(der)).is_ok()
}

/// Relies on WebPkiClientVerifier::builder(..).build() and on
/// ServerConfig::builder().with_client_cert_verifier(..).with_single_cert(..):
/// a server configuration that demands client certificates chaining to `roots`.
/// `build` fails exactly when `roots` is empty. Both calls stand here together because the verifier between them is a trait
/// object, which verified code cannot pass on.
#[verifier::external_body]
fn client_auth_config(roots: RootCertStore, chain: Vec<Vec<u8>>, key: PrivateKeyDer<'static>) -> (r:
    Result<ServerConfig, TlsError>)
    ensures
        root_count(roots) == 0 <==> (r is Err && r->Err_0 == TlsError::ClientVerifier),
        r is Err ==> r->Err_0 == TlsError::ClientVerifier || r->Err_0 == TlsError::ServerIdentity,
{
    let verifier = match WebPkiClientVerifier::builder(roots.into()).build() {
        Ok(v) => v,
        Err(_) => return Err(TlsError::ClientVerifier),
    };
    let chain = chain.into_iter().map(CertificateDer::from).collect();
    ServerConfig::builder()
        .with_client_cert_verifier(verifier)
        .with_single_cert(chain, key)
        .map_err(|_| TlsError::ServerIdentity)
}

/// Relies on the `alpn_protocols` field of ServerConfig: the protocols offered, in order.
#[verifier::external_body]
fn set_alpn_protocols(config: &mut ServerConfig, protocols: Vec<Vec<u8>>)
    ensures
        alpn_of(*final(config)) == ders_view(protocols@),
{
    config.alpn_protocols = protocols;
}

/// Relies on std::io::Error::other: an error of kind `Other` whose displayed text
/// is that of the payload, here the message itself.
#[verifier::external_body]
fn other_io_error(message: String) -> (r: std::io::Error)
    ensures
        io_error_is_other(r),
        io_error_text(r) == message@,
{
    std::io::Error::other(message)
}

/// `error` as an I/O error of kind `Other`, carrying its message.
pub fn io_other(error: TlsError) -> (r: std::io::Error)
    ensures
        io_error_is_other(r),
        io_error_text(r) == tls_message(error),
{
    other_io_error(error.message())
}

/// The application protocols offered, most preferred first: HTTP/2, then HTTP/1.1.
pub fn alpn_protocols() -> (r: Vec<Vec<u8>>)
    ensures
        ders_view(r@) == preferred_protocols(),
{
    let h2: Vec<u8> = vec![104u8, 50u8];
    let http11: Vec<u8> = vec![104u8, 116u8, 116u8, 112u8, 47u8, 49u8, 46u8, 49u8];
    let r = vec![h2, http11];
    assert(ders_view(r@) =~= preferred_protocols());
    r
}

/// The single private key among the decoded key sections: an error when there
/// is none or more than one.
pub fn select_private_key(items: &Vec<Option<Vec<u8>>>) -> (r: Result<Vec<u8>, TlsError>)
    ensures
        key_count(key_items_view(items@)) == 0 ==> r == Err::<Vec<u8>, TlsError>(TlsError::NoPrivateKey),
        key_count(key_items_view(items@)) >= 2 ==> r == Err::<Vec<u8>, TlsError>(TlsError::MultiplePrivateKeys),
        key_count(key_items_view(items@)) == 1 ==> r is Ok && first_key(key_items_view(items@)) == Some(r->Ok_0@),
{
    let ghost all = key_items_view(items@);
    let mut found: Option<Vec<u8>> = None;
    let mut i: usize = 0;
    while i < items.len()
        invariant
            i <= items@.len(),
            all == key_items_view(items@),
            key_count(all.take(i as int)) <= 1,
            found is None <==> key_count(all.take(i as int)) == 0,
            found matches Some(k) ==> first_key(all.take(i as int)) == Some(k@),
            found is None ==> first_key(all.take(i as int)) is None,
        decreases items@.len() - i,
    {
        assert(all.take(i + 1).drop_last() =~= all.take(i as int));
        assert(all.take(i + 1).last() == all[i as int]);
        match &items[i] {
            Some(k) => {
                if found.is_some() {
                    proof {
                        lemma_key_count_prefix(all, i + 1);
                    }
                    return Err(TlsError::MultiplePrivateKeys);
                }
                found = Some(k.clone());
            },
            None => {},
        }
        i = i + 1;
    }
    assert(all.take(i as int) =~= all);
    match found {
        Some(k) => Ok(k),
        None => Err(TlsError::NoPrivateKey),
    }
}

/// Adds each certificate of `cas` to `roots` as a trust anchor, stopping at the
/// first one refused; true when all were accepted.
fn add_trust_anchors(roots: &mut RootCertStore, cas: &Vec<Vec<u8>>) -> (r: bool)
    ensures
        r == forall|i: int| 0 <= i < cas@.len() ==> anchor_accepted(#[trigger] ders_view(cas@)[i]),
        r ==> root_count(*final(roots)) == root_count(*old(roots)) + cas@.len(),
{
    let mut i: usize = 0;
    while i < cas.len()
        invariant
            i <= cas@.len(),
            forall|j: int| 0 <= j < i ==> anchor_accepted(#[trigger] ders_view(cas@)[j]),
            root_count(*roots) == root_count(*old(roots)) + i,
        decreases cas@.len() - i,
    {
        let der = cas[i].clone();
        assert(ders_view(cas@)[i as int] == cas@[i as int]@);
        if !add_trust_anchor(roots, der) {
            return false;
        }
        i = i + 1;
    }
    true
}

/// A server configuration from DER material: the certificate chain presented,
/// its private key, and the anchors that client certificates must chain to.
pub fn config_from_der(cert: Vec<Vec<u8>>, key: Vec<u8>, client_ca: Vec<Vec<u8>>) -> (r: Result<
    ServerConfig,
    TlsError,
>)
    ensures
        der_outcome(r, key@, ders_view(client_ca@)),
{
    let key = match private_key_from_der(key) {
        Some(k) => k,
        None => return Err(TlsError::InvalidPrivateKey),
    };
    let mut roots = empty_root_store();
    if !add_trust_anchors(&mut roots, &client_ca) {
        return Err(TlsError::UntrustedAnchor);
    }
    let mut config = match client_auth_config(roots, cert, key) {
        Ok(c) => c,
        Err(e) => return Err(e),
    };
    set_alpn_protocols(&mut config, alpn_protocols());
    Ok(config)
}

/// A server configuration from PEM text: the server's certificate chain, a key
/// file that must hold exactly one private key, and the client trust bundle.
pub fn config_from_pem(cert: Vec<u8>, key: Vec<u8>, ca: Vec<u8>) -> (r: Result<ServerConfig, TlsError>)
    ensures
        pem_certificates_of(cert@) is None ==> r is Err && r->Err_0 == TlsError::CertificateParse,
        pem_certificates_of(cert@) is Some && pem_certificates_of(ca@) is None ==> r is Err && r->Err_0
            == TlsError::TrustBundleParse,
        pem_certificates_of(cert@) is Some && pem_certificates_of(ca@) is Some && key_count(
            pem_private_keys_of(key@),
        ) == 0 ==> r is Err && r->Err_0 == TlsError::NoPrivateKey,
        pem_certificates_of(cert@) is Some && pem_certificates_of(ca@) is Some && key_count(
            pem_private_keys_of(key@),
        ) >= 2 ==> r is Err && r->Err_0 == TlsError::MultiplePrivateKeys,
        pem_certificates_of(cert@) is Some && pem_certificates_of(ca@) is Some && key_count(
            pem_private_keys_of(key@),
        ) == 1 ==> der_outcome(
            r,
            first_key(pem_private_keys_of(key@))->0,
            pem_certificates_of(ca@)->0,
        ),
{
    let chain = match pem_certificates(cert.as_slice()) {
        Some(c) => c,
        None => return Err(TlsError::CertificateParse),
    };
    let client_ca = match pem_certificates(ca.as_slice()) {
        Some(c) => c,
        None => return Err(TlsError::TrustBundleParse),
    };
    let items = pem_private_keys(key.as_slice());
    let key_der = match select_private_key(&items) {
        Ok(k) => k,
        Err(e) => return Err(e),
    };
    let r = config_from_der(chain, key_der, client_ca);
    r
}

} // verus!
