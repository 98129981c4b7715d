//! The proxy's configuration, as plain values.
//!
//! Reading it from YAML is done where the configuration file is read: these
//! are the values that the rest of the crate works from.
use vstd::prelude::*;

use crate::address::SocketAddress;

verus! {

/// Command-line arguments.
#[derive(Clone, Debug, PartialEq, Eq)]
pub struct Args {
    /// The path to the configuration file, as the bytes that the operating
    /// system names it by.
    pub config_file: Vec<u8>,
}

/// The whole configuration.
#[derive(Clone, Debug, PartialEq, Eq)]
pub struct Config {
    pub runtime: RuntimeConfig,
    pub dns_resolver: DnsResolverConfig,
    pub hosts: Vec<HostConfig>,
}

/// Which asynchronous runtime runs the hosts.
#[derive(Clone, Copy, Debug, PartialEq, Eq, Structural)]
pub enum RuntimeConfig {
    MultiThread,
    CurrentThread,
}

/// Which DNS resolver the upstreams use.
#[derive(Clone, Copy, Debug, PartialEq, Eq, Structural)]
pub enum DnsResolverConfig {
    Hickory,
    Tokio,
}

/// Whether a host serves plain TCP or terminates TLS.
#[derive(Clone, Debug, PartialEq, Eq)]
pub enum HostConfigKind {
    Tcp,
    Tls { certs: HostConfigCerts },
}

/// One listening host.
#[derive(Clone, Debug, PartialEq, Eq)]
pub struct HostConfig {
    pub addr: SocketAddress,
    pub upstreams: Vec<UpstreamConfig>,
    pub kind: HostConfigKind,
}

/// The certificate chain and private key of a TLS host, as paths (the bytes
/// that the operating system names them by), and how changes to them are
/// noticed.
#[derive(Clone, Debug, PartialEq, Eq)]
pub struct HostConfigCerts {
    pub certs: Vec<u8>,
    pub key: Vec<u8>,
    pub watch: Option<Watch>,
}

/// A length of time, in whole seconds and the nanoseconds beyond them.
#[derive(Clone, Copy, Debug, PartialEq, Eq, Hash, Structural)]
pub struct WatchDuration {
    pub secs: u64,
    pub nanos: u32,
}

/// How the certificate files are watched for changes: through file system
/// notifications gathered over `duration`, or by polling every `duration`.
#[derive(Clone, Copy, Debug, PartialEq, Eq, Hash, Structural)]
pub enum Watch {
    Debounce { duration: WatchDuration },
    Poll { duration: WatchDuration },
}

/// One upstream of a host, before resolution.
#[derive(Clone, Debug, PartialEq, Eq)]
pub struct UpstreamConfig {
    pub domain: String,
    pub port: u16,
}

} // verus!
