//! Loaders of TLS configurations from PEM files.
//!
//! A loader knows the paths of its files (as the bytes that the operating
//! system names them by); whoever reads them hands their
//! contents to the loader's `from_pem`, which parses them and builds the
//! rustls configuration.
use rustls::{ClientConfig, ServerConfig};
use vstd::prelude::*;

use crate::tls::{
    PrivateKeyFormat,
    add_parsable_certificates, build_client_config, build_server_config, client_config_anchors,
    empty_root_store, parse_certificates, parse_private_key, parsable_anchors, pem_certificates,
    pem_private_key, server_config_chain, single_cert_accepted,
};

verus! {

/// Why a TLS configuration could not be built from PEM text.
#[derive(Debug)]
pub enum TlsConfigError {
    /// A certificate section of the certificate file did not decode.
    Certificates(rustls::pki_types::pem::Error),
    /// The key file holds no private key that decodes.
    PrivateKey(rustls::pki_types::pem::Error),
    /// rustls refused the certificates and key together.
    Rejected(rustls::Error),
}

/// Loads a client configuration that trusts the certificates of one PEM file.
#[derive(Clone, Debug, PartialEq, Eq)]
pub struct FileTlsClientConfigLoader {
    certs: Vec<u8>,
}

impl FileTlsClientConfigLoader {
    /// The path of the certificate file.
    pub closed spec fn certs_path(self) -> Seq<u8> {
        self.certs@
    }

    pub fn new(certs: Vec<u8>) -> (r: FileTlsClientConfigLoader)
        ensures
            r.certs_path() == certs@,
    {
        FileTlsClientConfigLoader { certs }
    }

    /// The paths of the files that the configuration is loaded from.
    pub fn paths(&self) -> (r: [Vec<u8>; 1])
        ensures
            r@[0]@ == self.certs_path(),
    {
        let certs = self.certs.clone();
        assert(certs@ =~= self.certs@);
        [certs]
    }

    /// A client configuration, without client authentication, whose trusted
    /// roots are the certificates of the PEM text `certs_pem` that parse as
    /// trust anchors, in order (the others are skipped). It fails exactly when
    /// a certificate section does not decode.
    pub fn from_pem(certs_pem: &[u8]) -> (r: Result<ClientConfig, TlsConfigError>)
        ensures
            r is Err <==> pem_certificates(certs_pem@) is None,
            r matches Err(e) ==> e is Certificates,
            r matches Ok(config) ==> client_config_anchors(config) == parsable_anchors(
                pem_certificates(certs_pem@)->0,
            ),
    {
        let certs = match parse_certificates(certs_pem) {
            Ok(certs) => certs,
            Err(e) => return Err(TlsConfigError::Certificates(e)),
        };
        let mut roots = empty_root_store();
        let _counts = add_parsable_certificates(&mut roots, certs);
        Ok(build_client_config(roots))
    }
}

/// What building a server configuration from the PEM texts `certs_pem` and
/// `key_pem` gives (`r`): see [`FileTlsServerConfigLoader::from_pem`].
pub open spec fn server_pem_outcome(
    certs_pem: Seq<u8>,
    key_pem: Seq<u8>,
    r: Result<ServerConfig, TlsConfigError>,
) -> bool {
    match (pem_certificates(certs_pem), pem_private_key(key_pem)) {
        (None, _) => r matches Err(TlsConfigError::Certificates(_)),
        (Some(_), None) => r matches Err(TlsConfigError::PrivateKey(_)),
        (Some(chain), Some((format, key_der))) => if single_cert_accepted(chain, format, key_der) {
            r matches Ok(config) && server_config_chain(config) == chain
        } else {
            r matches Err(TlsConfigError::Rejected(_))
        },
    }
}

/// When both PEM texts parse, a server configuration loads exactly when
/// rustls accepts the whole certificate chain of the file, in file order
/// (end-entity first), with the first private key of the key file; a
/// configuration that loads presents that whole chain, in that order, and
/// any other outcome is `Rejected`.
pub proof fn lemma_server_pem_whole_chain(
    certs_pem: Seq<u8>,
    key_pem: Seq<u8>,
    r: Result<ServerConfig, TlsConfigError>,
    chain: Seq<Seq<u8>>,
    format: PrivateKeyFormat,
    key_der: Seq<u8>,
)
    requires
        server_pem_outcome(certs_pem, key_pem, r),
        pem_certificates(certs_pem) == Some(chain),
        pem_private_key(key_pem) == Some((format, key_der)),
    ensures
        r is Ok <==> single_cert_accepted(chain, format, key_der),
        r matches Ok(config) ==> server_config_chain(config) == chain
            && server_config_chain(config).len() == chain.len()
            && forall|i: int| 0 <= i < chain.len() ==> #[trigger] server_config_chain(config)[i] == chain[i],
        r is Err ==> r->Err_0 is Rejected,
{
}

/// A server configuration fails to load with `Certificates` exactly when the
/// certificate file does not decode, and with `PrivateKey` exactly when it
/// does but the key file holds no key that decodes.
pub proof fn lemma_server_pem_parse_failures(
    certs_pem: Seq<u8>,
    key_pem: Seq<u8>,
    r: Result<ServerConfig, TlsConfigError>,
)
    requires
        server_pem_outcome(certs_pem, key_pem, r),
    ensures
        (r matches Err(e) && e is Certificates) <==> pem_certificates(certs_pem) is None,
        (r matches Err(e) && e is PrivateKey) <==> pem_certificates(certs_pem) is Some
            && pem_private_key(key_pem) is None,
{
}

/// Loads a server configuration from a certificate chain file and a private
/// key file, both PEM.
#[derive(Clone, Debug, PartialEq, Eq)]
pub struct FileTlsServerConfigLoader {
    certs: Vec<u8>,
    key: Vec<u8>,
}

impl FileTlsServerConfigLoader {
    /// The path of the certificate chain file.
    pub closed spec fn certs_path(self) -> Seq<u8> {
        self.certs@
    }

    /// The path of the private key file.
    pub closed spec fn key_path(self) -> Seq<u8> {
        self.key@
    }

    pub fn new(certs: Vec<u8>, key: Vec<u8>) -> (r: FileTlsServerConfigLoader)
        ensures
            r.certs_path() == certs@,
            r.key_path() == key@,
    {
        FileTlsServerConfigLoader { certs, key }
    }

    /// The paths of the files that the configuration is loaded from:
    /// certificates, then key.
    pub fn paths(&self) -> (r: [Vec<u8>; 2])
        ensures
            r@[0]@ == self.certs_path(),
            r@[1]@ == self.key_path(),
    {
        let certs = self.certs.clone();
        let key = self.key.clone();
        assert(certs@ =~= self.certs@);
        assert(key@ =~= self.key@);
        [certs, key]
    }

    /// A server configuration, without client authentication, that presents
    /// the certificate chain of the PEM text `certs_pem` with the first private
    /// key of `key_pem`.
    ///
    /// It fails with `Certificates` exactly when a certificate section does not
    /// decode; else with `PrivateKey` exactly when no private key decodes; else
    /// it succeeds exactly when rustls accepts the file's certificates, in
    /// order, with that key, and the configuration presents those certificates;
    /// otherwise it fails with `Rejected`.
    pub fn from_pem(certs_pem: &[u8], key_pem: &[u8]) -> (r: Result<ServerConfig, TlsConfigError>)
        ensures
            server_pem_outcome(certs_pem@, key_pem@, r),
            pem_certificates(certs_pem@) matches Some(chain) ==> (pem_private_key(key_pem@) matches Some(
                (format, key_der),
            ) ==> (r is Ok <==> single_cert_accepted(chain, format, key_der))),
            r matches Ok(config) ==> (pem_certificates(certs_pem@) matches Some(chain)
                && server_config_chain(config) == chain),
    {
        let certs = match parse_certificates(certs_pem) {
            Ok(certs) => certs,
            Err(e) => return Err(TlsConfigError::Certificates(e)),
        };
        let key = match parse_private_key(key_pem) {
            Ok(key) => key,
            Err(e) => return Err(TlsConfigError::PrivateKey(e)),
        };
        match build_server_config(certs, key) {
            Ok(config) => Ok(config),
            Err(e) => Err(TlsConfigError::Rejected(e)),
        }
    }
}

/// The ways a server configuration can be loaded.
#[derive(Clone, Debug, PartialEq, Eq)]
pub enum TlsServerConfigLoader {
    File(FileTlsServerConfigLoader),
}

impl TlsServerConfigLoader {
    pub fn file(certs: Vec<u8>, key: Vec<u8>) -> (r: TlsServerConfigLoader)
        ensures
            r matches TlsServerConfigLoader::File(l) && l.certs_path() == certs@ && l.key_path()
                == key@,
    {
        TlsServerConfigLoader::File(FileTlsServerConfigLoader::new(certs, key))
    }

    /// A server configuration built from the PEM contents of the loader's
    /// files (see [`FileTlsServerConfigLoader::from_pem`]).
    pub fn from_pem(&self, certs_pem: &[u8], key_pem: &[u8]) -> (r: Result<ServerConfig, TlsConfigError>)
        ensures
            server_pem_outcome(certs_pem@, key_pem@, r),
            pem_certificates(certs_pem@) matches Some(chain) ==> (pem_private_key(key_pem@) matches Some(
                (format, key_der),
            ) ==> (r is Ok <==> single_cert_accepted(chain, format, key_der))),
            r matches Ok(config) ==> (pem_certificates(certs_pem@) matches Some(chain)
                && server_config_chain(config) == chain),
    {
        match self {
            TlsServerConfigLoader::File(_) => FileTlsServerConfigLoader::from_pem(certs_pem, key_pem),
        }
    }

    /// The paths of the files that the configuration is loaded from.
    pub fn paths(&self) -> (r: [Vec<u8>; 2])
        ensures
            self matches TlsServerConfigLoader::File(l) && r@[0]@ == l.certs_path() && r@[1]@
                == l.key_path(),
    {
        match self {
            TlsServerConfigLoader::File(l) => l.paths(),
        }
    }
}

} // verus!
