//! The calls into rustls (and its re-export of `rustls-pki-types`) that the
//! TLS configuration logic makes, and the rustls types that it carries.
//!
//! Certificates and keys cross into the verified code as DER bytes, so that
//! contracts can speak of them.
//!
//! Everything here is trusted: each contract below is what the outside
//! source shows, and is not proved.
use std::sync::Arc;

use rustls::pki_types::pem::PemObject;
use rustls::pki_types::{
    CertificateDer, PrivateKeyDer as Key, PrivatePkcs1KeyDer, PrivatePkcs8KeyDer, PrivateSec1KeyDer,
};
use rustls::{ClientConfig, RootCertStore, ServerConfig};
use vstd::prelude::*;

verus! {

#[verifier::external_type_specification]
#[verifier::external_body]
pub struct ExServerConfig(rustls::ServerConfig);

#[verifier::external_type_specification]
#[verifier::external_body]
pub struct ExClientConfig(rustls::ClientConfig);

#[verifier::external_type_specification]
#[verifier::external_body]
pub struct ExRootCertStore(rustls::RootCertStore);

#[verifier::external_type_specification]
#[verifier::external_body]
pub struct ExRustlsError(rustls::Error);

#[verifier::external_type_specification]
#[verifier::external_body]
pub struct ExPemError(rustls::pki_types::pem::Error);

/// A trust anchor as bytes: its subject, its subject public key info, and
/// its name constraints if it has any (all DER).
pub type AnchorView = (Seq<u8>, Seq<u8>, Option<Seq<u8>>);

/// The encodings of a private key that PEM text can hold.
#[derive(Clone, Copy, Debug, PartialEq, Eq, Structural)]
pub enum PrivateKeyFormat {
    Pkcs1,
    Sec1,
    Pkcs8,
}

/// A private key: its encoding and its DER bytes.
pub struct PrivateKey {
    pub format: PrivateKeyFormat,
    pub der: Vec<u8>,
}

/// The sets of roots that `webpki-roots` ships.
#[derive(Clone, Copy, Debug, PartialEq, Eq, Structural)]
pub enum WebPkiRoots {
    /// `webpki_roots::TLS_SERVER_ROOTS`.
    TlsServerRoots,
}

/// What `CertificateDer::pem_slice_iter`, collected, makes of PEM text: the
/// DER bytes of its certificate sections, in order, when every section
/// decodes; `None` when one fails to.
pub uninterp spec fn pem_certificates(pem: Seq<u8>) -> Option<Seq<Seq<u8>>>;

/// What `PrivateKeyDer::from_pem_slice` finds in PEM text: the encoding and
/// DER bytes of its first private key; `None` when there is none, or a
/// section before it fails to decode.
pub uninterp spec fn pem_private_key(pem: Seq<u8>) -> Option<(PrivateKeyFormat, Seq<u8>)>;

/// Whether rustls's `with_single_cert` accepts the certificate chain `chain`
/// (DER, end-entity first) with the private key `key_der` in encoding
/// `format`, under the `ring` provider that this crate's features make the
/// process default: the key must load, and its public key must match the
/// first certificate's.
pub uninterp spec fn single_cert_accepted(
    chain: Seq<Seq<u8>>,
    format: PrivateKeyFormat,
    key_der: Seq<u8>,
) -> bool;

/// The certificate chain (DER, end-entity first) that a server configuration
/// presents.
pub uninterp spec fn server_config_chain(config: ServerConfig) -> Seq<Seq<u8>>;

/// The trust anchors that a root store holds, in order.
pub uninterp spec fn root_store_anchors(store: RootCertStore) -> Seq<AnchorView>;

/// The trust anchors that a client configuration verifies servers against.
pub uninterp spec fn client_config_anchors(config: ClientConfig) -> Seq<AnchorView>;

/// What `webpki::anchor_from_trusted_cert` makes of a DER certificate: its
/// trust anchor, or `None` when the certificate does not parse as one.
pub uninterp spec fn certificate_anchor(der: Seq<u8>) -> Option<AnchorView>;

/// The anchors of the set of roots `roots` that `webpki-roots` ships, in order.
pub uninterp spec fn webpki_anchors(roots: WebPkiRoots) -> Seq<AnchorView>;

/// The trust anchors of those certificates of `certs` that parse as one,
/// in order; the others are skipped.
pub open spec fn parsable_anchors(certs: Seq<Seq<u8>>) -> Seq<AnchorView> {
    certs.map_values(|c: Seq<u8>| certificate_anchor(c)).filter(|a: Option<AnchorView>| a is Some).map_values(
        |a: Option<AnchorView>| a->0,
    )
}

/// Calls `CertificateDer::pem_slice_iter` and collects it, as DER bytes:
/// every certificate section of the PEM text, or the first error met. Empty
/// text holds no section, and gives no certificate.
#[verifier::external_body]
pub(crate) fn parse_certificates(pem: &[u8]) -> (r: Result<Vec<Vec<u8>>, rustls::pki_types::pem::Error>)
    ensures
        match r {
            Ok(certs) => pem_certificates(pem@) == Some(certs.deep_view()),
            Err(_) => pem_certificates(pem@) is None,
        },
        pem@.len() == 0 ==> r is Ok && r->Ok_0@.len() == 0,
{
    CertificateDer::pem_slice_iter(pem).map(|c| c.map(|c| c.to_vec())).collect()
}

/// Calls `PrivateKeyDer::from_pem_slice`: the first private key section of
/// the PEM text, as its encoding and DER bytes. `PrivateKeyDer` is
/// non-exhaustive; the version used has exactly the three encodings below,
/// and a further one would be reported as no key found.
#[verifier::external_body]
pub(crate) fn parse_private_key(pem: &[u8]) -> (r: Result<PrivateKey, rustls::pki_types::pem::Error>)
    ensures
        match r {
            Ok(key) => pem_private_key(pem@) == Some((key.format, key.der@)),
            Err(_) => pem_private_key(pem@) is None,
        },
{
    let (format, der) = match Key::from_pem_slice(pem)? {
        Key::Pkcs1(k) => (PrivateKeyFormat::Pkcs1, k.secret_pkcs1_der().to_vec()),
        Key::Sec1(k) => (PrivateKeyFormat::Sec1, k.secret_sec1_der().to_vec()),
        Key::Pkcs8(k) => (PrivateKeyFormat::Pkcs8, k.secret_pkcs8_der().to_vec()),
        _ => return Err(rustls::pki_types::pem::Error::NoItemsFound),
    };
    Ok(PrivateKey { format, der })
}

/// Builds a server configuration with rustls's builder:
/// `ServerConfig::builder()`, then `with_no_client_auth()`, then
/// `with_single_cert(chain, key)`. The intermediate builder types cannot be
/// declared to Verus (their bound on rustls's sealed `ConfigSide` trait is
/// refused), so the chain stands in one wrapper. This crate enables rustls's
/// `ring` provider alone, from which rustls takes the process default, so
/// `builder()` does not panic. The outcome is named; a configuration built
/// presents the chain handed in.
#[verifier::external_body]
pub(crate) fn build_server_config(chain: Vec<Vec<u8>>, key: PrivateKey) -> (r: Result<
    ServerConfig,
    rustls::Error,
>)
    ensures
        r is Ok == single_cert_accepted(chain.deep_view(), key.format, key.der@),
        r matches Ok(config) ==> server_config_chain(config) == chain.deep_view(),
{
    let key = match key.format {
        PrivateKeyFormat::Pkcs1 => Key::Pkcs1(PrivatePkcs1KeyDer::from(key.der)),
        PrivateKeyFormat::Sec1 => Key::Sec1(PrivateSec1KeyDer::from(key.der)),
        PrivateKeyFormat::Pkcs8 => Key::Pkcs8(PrivatePkcs8KeyDer::from(key.der)),
    };
    let chain = chain.into_iter().map(CertificateDer::from).collect();
    ServerConfig::builder().with_no_client_auth().with_single_cert(chain, key)
}

/// Calls `RootCertStore::empty`: a store with no anchor.
#[verifier::external_body]
pub(crate) fn empty_root_store() -> (r: RootCertStore)
    ensures
        root_store_anchors(r) == Seq::<AnchorView>::empty(),
{
    RootCertStore::empty()
}

/// Builds a `RootCertStore` whose anchors are those of `webpki-roots`'s set
/// `roots` (the only one, `TLS_SERVER_ROOTS`), in order.
#[verifier::external_body]
pub(crate) fn webpki_root_store(roots: WebPkiRoots) -> (r: RootCertStore)
    ensures
        root_store_anchors(r) == webpki_anchors(roots),
{
    match roots {
        WebPkiRoots::TlsServerRoots => RootCertStore { roots: webpki_roots::TLS_SERVER_ROOTS.into() },
    }
}

/// Calls `RootCertStore::add_parsable_certificates` on DER certificates. It
/// appends, in order, the trust anchor of each certificate that parses as
/// one (`webpki::anchor_from_trusted_cert`), skips the others, and returns
/// how many it added and how many it skipped.
#[verifier::external_body]
pub(crate) fn add_parsable_certificates(store: &mut RootCertStore, certs: Vec<Vec<u8>>) -> (r: (
    usize,
    usize,
))
    ensures
        root_store_anchors(*final(store)) == root_store_anchors(*old(store)) + certs.deep_view().map_values(
            |c: Seq<u8>| certificate_anchor(c),
        ).filter(|a: Option<AnchorView>| a is Some).map_values(|a: Option<AnchorView>| a->0),
        r.0 == parsable_anchors(certs.deep_view()).len(),
        r.0 + r.1 == certs.len(),
{
    store.add_parsable_certificates(certs.into_iter().map(CertificateDer::from))
}

/// Builds a client configuration with rustls's builder:
/// `ClientConfig::builder()`, then `with_root_certificates(roots)`, then
/// `with_no_client_auth()`, in one wrapper for the reason given at
/// [`build_server_config`]. None of these steps fails; the configuration
/// verifies servers against the anchors of `roots`.
#[verifier::external_body]
pub(crate) fn build_client_config(roots: RootCertStore) -> (r: ClientConfig)
    ensures
        client_config_anchors(r) == root_store_anchors(roots),
{
    ClientConfig::builder().with_root_certificates(roots).with_no_client_auth()
}

/// Calls `<Arc<T> as Clone>::clone`: a new handle to the same value.
#[verifier::external_body]
pub(crate) fn share<T>(value: &Arc<T>) -> (r: Arc<T>)
    ensures
        r == *value,
{
    value.clone()
}

} // verus!
