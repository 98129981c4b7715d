use std::sync::Arc;

use upstream::config::{Watch, WatchDuration};
use upstream::loader::{FileTlsServerConfigLoader, TlsConfigError};
use upstream::provider::{
    ReloadableConfig, ServerConfigStep, TlsClientConfigProvider, TlsServerConfigProvider,
    WatchFileTlsClientConfigProvider,
};
use upstream::loader::FileTlsClientConfigLoader;

/// A self-signed certificate for the key `test_key_pem(1)`.
const CERT_PEM: &str = "-----BEGIN CERTIFICATE-----\nMIIBVTCCAQegAwIBAgIUQU3+nRxhZhYtZkm/m15OHCaY+d0wBQYDK2VwMBQxEjAQ\nBgNVBAMMCWxvY2FsaG9zdDAgFw0yNjExMTkwNjU2MzVaGA8yMTI2MTAyNjA2NTYz\nNVowFDESMBAGA1UEAwwJbG9jYWxob3N0MCowBQYDK2VwAyEAebVWLo/mVPlAeLES\n6KmLp5AfhTrmlb7X4OORC60ElmSjaTBnMB0GA1UdDgQWBBROHPG7FSDNDZqZ7h9K\n51IWR91qUzAfBgNVHSMEGDAWgBROHPG7FSDNDZqZ7h9K51IWR91qUzAPBgNVHRMB\nAf8EBTADAQH/MBQGA1UdEQQNMAuCCWxvY2FsaG9zdDAFBgMrZXADQQCy6iv9+kXc\nZzf/F6SIJTW06Ne8v+gKWRM1UwPrsNc29t3U9Hz+e+2t+1fPRhzgX3T/rrygBwWl\nFcp2qhwy5CYO\n-----END CERTIFICATE-----\n";

/// A test key: the Ed25519 private key, PKCS#8 and PEM encoded, whose seed is
/// the bytes `first`, `first + 1`, ... (a fixed, public value).
fn test_key_pem(first: u8) -> String {
    let mut der: Vec<u8> = vec![
        0x30, 0x2e, 0x02, 0x01, 0x00, 0x30, 0x05, 0x06, 0x03, 0x2b, 0x65, 0x70, 0x04, 0x22, 0x04, 0x20,
    ];
    for i in 0..32u8 {
        der.push(first.wrapping_add(i));
    }
    format!("-----BEGIN {label}-----\n{}\n-----END {label}-----\n", base64(&der), label = "PRIVATE KEY")
}

fn base64(bytes: &[u8]) -> String {
    let alphabet = b"ABCDEFGHIJKLMNOPQRSTUVWXYZabcdefghijklmnopqrstuvwxyz0123456789+/";
    let mut out = String::new();
    for chunk in bytes.chunks(3) {
        let b = [chunk[0], *chunk.get(1).unwrap_or(&0), *chunk.get(2).unwrap_or(&0)];
        let n = ((b[0] as u32) << 16) | ((b[1] as u32) << 8) | (b[2] as u32);
        for j in 0..4 {
            if j <= chunk.len() {
                out.push(alphabet[((n >> (18 - 6 * j)) & 63) as usize] as char);
            } else {
                out.push('=');
            }
        }
    }
    out
}


fn server_config() -> rustls::ServerConfig {
    FileTlsServerConfigLoader::from_pem(CERT_PEM.as_bytes(), test_key_pem(1).as_bytes()).unwrap()
}

fn load_error() -> TlsConfigError {
    FileTlsServerConfigLoader::from_pem(b"", b"").map(|_| ()).unwrap_err()
}

#[test]
fn a_successful_load_replaces_the_configuration() {
    let mut config = ReloadableConfig::new(1u32);
    assert_eq!(*config.current(), 1);
    assert!(config.apply::<&str>(Ok(2)).is_none());
    assert_eq!(*config.current(), 2);
}

#[test]
fn a_failed_load_keeps_the_configuration() {
    let mut config = ReloadableConfig::new(1u32);
    assert_eq!(config.apply(Err::<u32, &str>("broken")), Some("broken"));
    assert_eq!(*config.current(), 1);
}

#[test]
fn static_server_provider_serves_its_configuration() {
    let provider = TlsServerConfigProvider::static_file(server_config());
    let first = provider.current_config();
    match provider.get_server_config() {
        ServerConfigStep::Ready(config) => assert!(Arc::ptr_eq(&config, &first)),
        ServerConfigStep::Reload { .. } => panic!("a static provider does not reload"),
    }
}

#[test]
fn dynamic_server_provider_reloads_for_each_connection() {
    let loader = FileTlsServerConfigLoader::new(b"certs.pem".to_vec(), b"key.pem".to_vec());
    let mut provider = TlsServerConfigProvider::dynamic_file(loader, server_config());
    let initial = provider.current_config();
    match provider.get_server_config() {
        ServerConfigStep::Reload { paths } => {
            assert_eq!(paths, [b"certs.pem".to_vec(), b"key.pem".to_vec()])
        }
        ServerConfigStep::Ready(_) => panic!("a dynamic provider reloads"),
    }
    let (served, error) = provider.finish_reload(Err(load_error()));
    assert!(error.is_some());
    assert!(Arc::ptr_eq(&served, &initial));
    let (served, error) = provider.finish_reload(Ok::<_, TlsConfigError>(server_config()));
    assert!(error.is_none());
    assert!(!Arc::ptr_eq(&served, &initial));
    assert!(Arc::ptr_eq(&served, &provider.current_config()));
}

#[test]
fn watched_server_provider_takes_reloads() {
    let loader = FileTlsServerConfigLoader::new(b"c".to_vec(), b"k".to_vec());
    let watch = Watch::Poll { duration: WatchDuration { secs: 1, nanos: 0 } };
    let mut provider = TlsServerConfigProvider::watch_file(loader, watch, server_config());
    let initial = provider.current_config();
    assert!(provider.apply_watch_reload(Err(load_error())).is_some());
    assert!(Arc::ptr_eq(&provider.current_config(), &initial));
    assert!(provider.apply_watch_reload(Ok::<_, TlsConfigError>(server_config())).is_none());
    let after = provider.current_config();
    assert!(!Arc::ptr_eq(&after, &initial));
    match provider.get_server_config() {
        ServerConfigStep::Ready(config) => assert!(Arc::ptr_eq(&config, &after)),
        ServerConfigStep::Reload { .. } => panic!("a watched provider does not reload per connection"),
    }
}

#[test]
fn client_providers_serve_their_configuration() {
    let webpki = TlsClientConfigProvider::webpki();
    assert!(Arc::ptr_eq(&webpki.get_client_config(), &webpki.get_client_config()));
    let loaded = FileTlsClientConfigLoader::from_pem(CERT_PEM.as_bytes()).unwrap();
    let file = TlsClientConfigProvider::static_file(loaded);
    assert!(Arc::ptr_eq(&file.get_client_config(), &file.get_client_config()));
}

#[test]
fn watched_client_provider_takes_reloads() {
    let loader = FileTlsClientConfigLoader::new(b"roots.pem".to_vec());
    let watch = Watch::Debounce { duration: WatchDuration { secs: 0, nanos: 500_000_000 } };
    let initial = FileTlsClientConfigLoader::from_pem(CERT_PEM.as_bytes()).unwrap();
    let mut provider = WatchFileTlsClientConfigProvider::new(loader.clone(), watch, initial);
    assert_eq!(provider.watch(), watch);
    assert_eq!(provider.loader(), &loader);
    let before = provider.get_client_config();
    let broken = FileTlsClientConfigLoader::from_pem(b"-----BEGIN CERTIFICATE-----\n!!\n-----END CERTIFICATE-----\n");
    assert!(provider.apply_reload(broken).is_some());
    assert!(Arc::ptr_eq(&provider.get_client_config(), &before));
    let fresh = FileTlsClientConfigLoader::from_pem(b"");
    assert!(provider.apply_reload(fresh).is_none());
    assert!(!Arc::ptr_eq(&provider.get_client_config(), &before));
}

#[test]
fn the_last_successful_load_is_served() {
    let mut config = ReloadableConfig::new(0u32);
    let loads: Vec<Result<u32, &str>> = vec![Ok(2), Err("a"), Ok(5), Err("b"), Err("c")];
    for load in loads {
        config.apply(load);
    }
    assert_eq!(*config.current(), 5);
}

#[test]
fn failed_loads_alone_keep_the_initial_configuration() {
    let mut config = ReloadableConfig::new(4u32);
    for err in ["a", "b"] {
        assert_eq!(config.apply(Err::<u32, &str>(err)), Some(err));
    }
    assert_eq!(*config.current(), 4);
}
