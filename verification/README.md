# upstream

A TCP/TLS reverse proxy. Each configured host listens on an address and
forwards every accepted connection to an upstream server that its load
balancer names; TLS hosts terminate TLS with certificates read from PEM files,
which can be loaded again when the files change.

## Layout

- `src/` — the library, verified with Verus:
  - `load_balancer.rs`: identity and round-robin balancers, with the laws of
    their rotation (periodicity, fairness over a window, composition of calls);
  - `host.rs`: hosts, and the choice of balancer from a host's upstreams;
  - `upstream.rs`, `address.rs`: upstreams and addresses;
  - `dns_resolver.rs`: resolver choice, the once-only process-wide resolver
    slot, and pairing looked-up addresses with a port;
  - `loader.rs`, `provider.rs`: building rustls configurations from PEM
    text, and providers that keep the last configuration that loaded;
  - `watcher.rs`: which file watch reports lead to a reload;
  - `tls.rs`: the trusted declarations of the rustls calls used;
  - `config.rs`: the configuration as plain values.
- `app/` — the program: configuration file and command line, DNS lookups,
  sockets, TLS handshakes, file watchers and the runtime.
- `tests/` — tests of the library.
