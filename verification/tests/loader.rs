use upstream::loader::{FileTlsClientConfigLoader, FileTlsServerConfigLoader, TlsConfigError, TlsServerConfigLoader};

/// A self-signed certificate for the key `test_key_pem(1)`.
const CERT_PEM: &str = "-----BEGIN CERTIFICATE-----\nMIIBVTCCAQegAwIBAgIUQU3+nRxhZhYtZkm/m15OHCaY+d0wBQYDK2VwMBQxEjAQ\nBgNVBAMMCWxvY2FsaG9zdDAgFw0yNjExMTkwNjU2MzVaGA8yMTI2MTAyNjA2NTYz\nNVowFDESMBAGA1UEAwwJbG9jYWxob3N0MCowBQYDK2VwAyEAebVWLo/mVPlAeLES\n6KmLp5AfhTrmlb7X4OORC60ElmSjaTBnMB0GA1UdDgQWBBROHPG7FSDNDZqZ7h9K\n51IWR91qUzAfBgNVHSMEGDAWgBROHPG7FSDNDZqZ7h9K51IWR91qUzAPBgNVHRMB\nAf8EBTADAQH/MBQGA1UdEQQNMAuCCWxvY2FsaG9zdDAFBgMrZXADQQCy6iv9+kXc\nZzf/F6SIJTW06Ne8v+gKWRM1UwPrsNc29t3U9Hz+e+2t+1fPRhzgX3T/rrygBwWl\nFcp2qhwy5CYO\n-----END CERTIFICATE-----\n";

/// A test key: the Ed25519 private key, PKCS#8 and PEM encoded, whose seed is
/// the bytes `first`, `first + 1`, ... (a fixed, public value).
fn test_key_pem(first: u8) -> String {
    let mut der: Vec<u8> = vec![
        0x30, 0x2e, 0x02, 0x01, 0x00, 0x30, 0x05, 0x06, 0x03, 0x2b, 0x65, 0x70, 0x04, 0x22, 0x04, 0x20,
    ];
    for i in 0..32u8 {
        der.push(first.wrapping_add(i));
    }
    format!("-----BEGIN {label}-----\n{}\n-----END {label}-----\n", base64(&der), label = "PRIVATE KEY")
}

fn base64(bytes: &[u8]) -> String {
    let alphabet = b"ABCDEFGHIJKLMNOPQRSTUVWXYZabcdefghijklmnopqrstuvwxyz0123456789+/";
    let mut out = String::new();
    for chunk in bytes.chunks(3) {
        let b = [chunk[0], *chunk.get(1).unwrap_or(&0), *chunk.get(2).unwrap_or(&0)];
        let n = ((b[0] as u32) << 16) | ((b[1] as u32) << 8) | (b[2] as u32);
        for j in 0..4 {
            if j <= chunk.len() {
                out.push(alphabet[((n >> (18 - 6 * j)) & 63) as usize] as char);
            } else {
                out.push('=');
            }
        }
    }
    out
}


const BROKEN_CERT_PEM: &str = "-----BEGIN CERTIFICATE-----\n!!not base64!!\n-----END CERTIFICATE-----\n";

#[test]
fn server_config_loads_from_matching_pem() {
    assert!(FileTlsServerConfigLoader::from_pem(CERT_PEM.as_bytes(), test_key_pem(1).as_bytes()).is_ok());
    let loader = TlsServerConfigLoader::file(b"c.pem".to_vec(), b"k.pem".to_vec());
    assert!(loader.from_pem(CERT_PEM.as_bytes(), test_key_pem(1).as_bytes()).is_ok());
}

#[test]
fn undecodable_certificates_are_reported() {
    let r = FileTlsServerConfigLoader::from_pem(BROKEN_CERT_PEM.as_bytes(), test_key_pem(1).as_bytes());
    assert!(matches!(r, Err(TlsConfigError::Certificates(_))));
}

#[test]
fn missing_private_key_is_reported() {
    let r = FileTlsServerConfigLoader::from_pem(CERT_PEM.as_bytes(), b"no key here");
    assert!(matches!(r, Err(TlsConfigError::PrivateKey(_))));
    let r = FileTlsServerConfigLoader::from_pem(CERT_PEM.as_bytes(), CERT_PEM.as_bytes());
    assert!(matches!(r, Err(TlsConfigError::PrivateKey(_))));
}

#[test]
fn key_of_another_certificate_is_rejected() {
    let r = FileTlsServerConfigLoader::from_pem(CERT_PEM.as_bytes(), test_key_pem(101).as_bytes());
    assert!(matches!(r, Err(TlsConfigError::Rejected(_))));
}

#[test]
fn client_config_loads_from_pem() {
    assert!(FileTlsClientConfigLoader::from_pem(CERT_PEM.as_bytes()).is_ok());
    assert!(FileTlsClientConfigLoader::from_pem(b"").is_ok());
    let r = FileTlsClientConfigLoader::from_pem(BROKEN_CERT_PEM.as_bytes());
    assert!(matches!(r, Err(TlsConfigError::Certificates(_))));
}

#[test]
fn loaders_report_their_paths() {
    let server = FileTlsServerConfigLoader::new(b"/etc/certs.pem".to_vec(), b"/etc/key.pem".to_vec());
    assert_eq!(server.paths(), [b"/etc/certs.pem".to_vec(), b"/etc/key.pem".to_vec()]);
    let file = TlsServerConfigLoader::file(b"a".to_vec(), b"b".to_vec());
    assert_eq!(file.paths(), [b"a".to_vec(), b"b".to_vec()]);
    let client = FileTlsClientConfigLoader::new(b"/etc/roots.pem".to_vec());
    assert_eq!(client.paths(), [b"/etc/roots.pem".to_vec()]);
}

#[test]
fn paths_keep_bytes_that_are_not_utf8() {
    let certs = vec![b'/', 0xff, 0xfe, b'c'];
    let key = vec![b'/', 0x80, b'k'];
    let loader = FileTlsServerConfigLoader::new(certs.clone(), key.clone());
    assert_eq!(loader.paths(), [certs, key]);
}

#[test]
fn the_same_files_give_the_same_outcome_through_either_loader() {
    let file = TlsServerConfigLoader::file(b"c".to_vec(), b"k".to_vec());
    let matching = file.from_pem(CERT_PEM.as_bytes(), test_key_pem(1).as_bytes());
    assert!(matching.is_ok());
    let other = file.from_pem(CERT_PEM.as_bytes(), test_key_pem(101).as_bytes());
    assert!(matches!(other, Err(TlsConfigError::Rejected(_))));
}
