//! A TCP/TLS reverse proxy: listening hosts forward each accepted connection
//! to an upstream chosen by a load balancer.
//!
//! This crate holds the proxy's decisions and data, with their contracts:
//! addresses, configuration, upstreams, load balancing, the DNS resolver
//! registry, TLS configuration loading and providers, and file watch events.

pub mod address;
pub mod config;
pub mod dns_resolver;
pub mod host;
pub mod load_balancer;
pub mod loader;
pub mod provider;
pub mod tls;
pub mod upstream;
pub mod watcher;

pub use address::{IpAddress, SocketAddress};
pub use dns_resolver::DnsResolver;
pub use load_balancer::{FifoLoadBalancer, IdentityLoadBalancer, LoadBalancer, StaticFifoLoadBalancer};
pub use upstream::{ConnectError, TcpUpstream, TcpUpstreamKind, Upstream, UpstreamAddress, UpstreamKind};
pub use config::Args;
pub use host::{Host, TcpHost};
pub use loader::{FileTlsServerConfigLoader, TlsServerConfigLoader};
pub use provider::{TlsClientConfigProvider, TlsServerConfigProvider};
