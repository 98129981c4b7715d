//! Providers of TLS configurations: what a connection is given when it is
//! accepted (server side) or opened (client side), and how a provider's
//! configuration is replaced when its files are loaded again.
use std::sync::Arc;

use rustls::{ClientConfig, ServerConfig};
use vstd::prelude::*;

use crate::config::Watch;
use crate::loader::{FileTlsClientConfigLoader, FileTlsServerConfigLoader};
use crate::tls::{build_client_config, client_config_anchors, share, webpki_anchors, webpki_root_store, WebPkiRoots};

verus! {

/// The configuration handed out after a load with outcome `loaded`, when
/// `current` was handed out before.
pub open spec fn after_load<C, E>(current: C, loaded: Result<C, E>) -> C {
    match loaded {
        Ok(c) => c,
        Err(_) => current,
    }
}

/// The configuration handed out after the loads `loads`, in order, starting
/// from `initial`.
pub open spec fn after_loads<C, E>(initial: C, loads: Seq<Result<C, E>>) -> C
    decreases loads.len(),
{
    if loads.len() == 0 {
        initial
    } else {
        after_load(after_loads(initial, loads.drop_last()), loads.last())
    }
}

/// After any series of loads, the configuration handed out is the one of the
/// last load that succeeded, or the initial one when none did.
pub proof fn lemma_serves_last_loaded<C, E>(initial: C, loads: Seq<Result<C, E>>)
    ensures
        (forall|i: int| 0 <= i < loads.len() ==> #[trigger] loads[i] is Err) ==> after_loads(
            initial,
            loads,
        ) == initial,
        forall|i: int|
            0 <= i < loads.len() && #[trigger] loads[i] is Ok && (forall|j: int|
                i < j < loads.len() ==> #[trigger] loads[j] is Err) ==> after_loads(initial, loads)
                == loads[i]->Ok_0,
    decreases loads.len(),
{
    if loads.len() > 0 {
        let prefix = loads.drop_last();
        lemma_serves_last_loaded(initial, prefix);
        assert forall|i: int| 0 <= i < prefix.len() implies #[trigger] prefix[i] == loads[i] by {}
        let n = loads.len() - 1;
        assert(loads.last() == loads[n]);
        assert forall|i: int|
            0 <= i < loads.len() && #[trigger] loads[i] is Ok && (forall|j: int|
                i < j < loads.len() ==> #[trigger] loads[j] is Err) implies after_loads(initial, loads)
            == loads[i]->Ok_0 by {
            if i < n {
                assert(loads[n] is Err);
                assert(prefix[i] is Ok);
                assert forall|j: int| i < j < prefix.len() implies #[trigger] prefix[j] is Err by {
                    assert(loads[j] is Err);
                }
            }
        }
    }
}

/// A configuration that a new load replaces, and that stays as it was when a
/// load fails: the last configuration that loaded is the one handed out.
pub struct ReloadableConfig<C> {
    current: Arc<C>,
}

impl<C> ReloadableConfig<C> {
    /// The configuration handed out now.
    pub closed spec fn config(self) -> C {
        *self.current
    }

    pub fn new(initial: C) -> (r: ReloadableConfig<C>)
        ensures
            r.config() == initial,
    {
        ReloadableConfig { current: Arc::new(initial) }
    }

    /// A handle to the configuration handed out now.
    pub fn current(&self) -> (r: Arc<C>)
        ensures
            *r == self.config(),
    {
        share(&self.current)
    }

    /// Takes the outcome of a load: a configuration that loaded replaces the
    /// current one; an error leaves it, and is given back.
    pub fn apply<E>(&mut self, loaded: Result<C, E>) -> (r: Option<E>)
        ensures
            final(self).config() == after_load(old(self).config(), loaded),
            match loaded {
                Ok(c) => final(self).config() == c && r is None,
                Err(e) => final(self).config() == old(self).config() && r == Some(e),
            },
    {
        match loaded {
            Ok(config) => {
                self.current = Arc::new(config);
                None
            },
            Err(e) => Some(e),
        }
    }
}

/// Trusts the web PKI roots that `webpki-roots` ships.
pub struct WebPkiTlsClientConfigProvider {
    config: Arc<ClientConfig>,
}

impl WebPkiTlsClientConfigProvider {
    pub closed spec fn config(self) -> ClientConfig {
        *self.config
    }

    /// A configuration, without client authentication, that trusts exactly
    /// the roots of `webpki_roots::TLS_SERVER_ROOTS`.
    pub fn new() -> (r: WebPkiTlsClientConfigProvider)
        ensures
            client_config_anchors(r.config()) == webpki_anchors(WebPkiRoots::TlsServerRoots),
    {
        let config = build_client_config(webpki_root_store(WebPkiRoots::TlsServerRoots));
        WebPkiTlsClientConfigProvider { config: Arc::new(config) }
    }

    pub fn get_client_config(&self) -> (r: Arc<ClientConfig>)
        ensures
            *r == self.config(),
    {
        share(&self.config)
    }
}

/// A client configuration loaded once from a file.
pub struct StaticFileTlsClientConfigProvider {
    config: Arc<ClientConfig>,
}

impl StaticFileTlsClientConfigProvider {
    pub closed spec fn config(self) -> ClientConfig {
        *self.config
    }

    /// Keeps `loaded`, the configuration that the file gave.
    pub fn new(loaded: ClientConfig) -> (r: StaticFileTlsClientConfigProvider)
        ensures
            r.config() == loaded,
    {
        StaticFileTlsClientConfigProvider { config: Arc::new(loaded) }
    }

    pub fn get_client_config(&self) -> (r: Arc<ClientConfig>)
        ensures
            *r == self.config(),
    {
        share(&self.config)
    }
}

/// A client configuration loaded from a file, and loaded again each time
/// the watch reports a change to it.
pub struct WatchFileTlsClientConfigProvider {
    loader: FileTlsClientConfigLoader,
    watch: Watch,
    config: ReloadableConfig<ClientConfig>,
}

impl WatchFileTlsClientConfigProvider {
    pub closed spec fn config(self) -> ClientConfig {
        self.config.config()
    }

    pub closed spec fn loader_view(self) -> FileTlsClientConfigLoader {
        self.loader
    }

    pub closed spec fn watch_view(self) -> Watch {
        self.watch
    }

    /// Starts from `initial`, the configuration that the first load gave.
    pub fn new(loader: FileTlsClientConfigLoader, watch: Watch, initial: ClientConfig) -> (r:
        WatchFileTlsClientConfigProvider)
        ensures
            r.config() == initial,
            r.loader_view() == loader,
            r.watch_view() == watch,
    {
        WatchFileTlsClientConfigProvider { loader, watch, config: ReloadableConfig::new(initial) }
    }

    pub fn get_client_config(&self) -> (r: Arc<ClientConfig>)
        ensures
            *r == self.config(),
    {
        self.config.current()
    }

    /// Takes the outcome of a load made after a change: see [`ReloadableConfig::apply`].
    pub fn apply_reload<E>(&mut self, loaded: Result<ClientConfig, E>) -> (r: Option<E>)
        ensures
            final(self).loader_view() == old(self).loader_view(),
            final(self).watch_view() == old(self).watch_view(),
            match loaded {
                Ok(c) => final(self).config() == c && r is None,
                Err(e) => final(self).config() == old(self).config() && r == Some(e),
            },
    {
        self.config.apply(loaded)
    }

    pub fn loader(&self) -> (r: &FileTlsClientConfigLoader)
        ensures
            *r == self.loader_view(),
    {
        &self.loader
    }

    pub fn watch(&self) -> (r: Watch)
        ensures
            r == self.watch_view(),
    {
        self.watch
    }
}

/// The ways an upstream's TLS client configuration can be provided.
pub enum TlsClientConfigProvider {
    WebPki(WebPkiTlsClientConfigProvider),
    StaticFile(StaticFileTlsClientConfigProvider),
}

impl TlsClientConfigProvider {
    /// The configuration that connections are given.
    pub open spec fn config(self) -> ClientConfig {
        match self {
            TlsClientConfigProvider::WebPki(p) => p.config(),
            TlsClientConfigProvider::StaticFile(p) => p.config(),
        }
    }

    pub fn webpki() -> (r: TlsClientConfigProvider)
        ensures
            r is WebPki,
            client_config_anchors(r.config()) == webpki_anchors(WebPkiRoots::TlsServerRoots),
    {
        TlsClientConfigProvider::WebPki(WebPkiTlsClientConfigProvider::new())
    }

    /// Keeps `loaded`, the configuration that the file gave.
    pub fn static_file(loaded: ClientConfig) -> (r: TlsClientConfigProvider)
        ensures
            r is StaticFile,
            r.config() == loaded,
    {
        TlsClientConfigProvider::StaticFile(StaticFileTlsClientConfigProvider::new(loaded))
    }

    pub fn get_client_config(&self) -> (r: Arc<ClientConfig>)
        ensures
            *r == self.config(),
    {
        match self {
            TlsClientConfigProvider::WebPki(p) => p.get_client_config(),
            TlsClientConfigProvider::StaticFile(p) => p.get_client_config(),
        }
    }
}

/// A server configuration loaded once from its files.
pub struct StaticFileTlsServerConfigProvider {
    config: Arc<ServerConfig>,
}

impl StaticFileTlsServerConfigProvider {
    pub closed spec fn config(self) -> ServerConfig {
        *self.config
    }

    /// Keeps `loaded`, the configuration that the files gave.
    pub fn new(loaded: ServerConfig) -> (r: StaticFileTlsServerConfigProvider)
        ensures
            r.config() == loaded,
    {
        StaticFileTlsServerConfigProvider { config: Arc::new(loaded) }
    }

    pub fn get_server_config(&self) -> (r: Arc<ServerConfig>)
        ensures
            *r == self.config(),
    {
        share(&self.config)
    }
}

/// A server configuration loaded from its files again for every connection;
/// the last configuration that loaded serves when a load fails.
pub struct DynamicFileTlsServerConfigProvider {
    loader: FileTlsServerConfigLoader,
    config: ReloadableConfig<ServerConfig>,
}

impl DynamicFileTlsServerConfigProvider {
    /// The last configuration that loaded.
    pub closed spec fn config(self) -> ServerConfig {
        self.config.config()
    }

    pub closed spec fn loader_view(self) -> FileTlsServerConfigLoader {
        self.loader
    }

    /// Starts from `initial`, the configuration that the first load gave.
    pub fn new(loader: FileTlsServerConfigLoader, initial: ServerConfig) -> (r:
        DynamicFileTlsServerConfigProvider)
        ensures
            r.config() == initial,
            r.loader_view() == loader,
    {
        DynamicFileTlsServerConfigProvider { loader, config: ReloadableConfig::new(initial) }
    }

    pub fn loader(&self) -> (r: &FileTlsServerConfigLoader)
        ensures
            *r == self.loader_view(),
    {
        &self.loader
    }

    /// The configuration for a connection, given the outcome of loading the
    /// files for it: what loaded, else the last configuration that loaded,
    /// with the error given back.
    pub fn get_server_config<E>(&mut self, loaded: Result<ServerConfig, E>) -> (r: (
        Arc<ServerConfig>,
        Option<E>,
    ))
        ensures
            final(self).loader_view() == old(self).loader_view(),
            *r.0 == final(self).config(),
            match loaded {
                Ok(c) => final(self).config() == c && r.1 is None,
                Err(e) => final(self).config() == old(self).config() && r.1 == Some(e),
            },
    {
        let error = self.config.apply(loaded);
        (self.config.current(), error)
    }
}

/// A server configuration loaded from its files, and loaded again each time
/// the watch reports a change to them.
pub struct WatchFileTlsServerConfigProvider {
    loader: FileTlsServerConfigLoader,
    watch: Watch,
    config: ReloadableConfig<ServerConfig>,
}

impl WatchFileTlsServerConfigProvider {
    pub closed spec fn config(self) -> ServerConfig {
        self.config.config()
    }

    pub closed spec fn loader_view(self) -> FileTlsServerConfigLoader {
        self.loader
    }

    pub closed spec fn watch_view(self) -> Watch {
        self.watch
    }

    /// Starts from `initial`, the configuration that the first load gave.
    pub fn new(loader: FileTlsServerConfigLoader, watch: Watch, initial: ServerConfig) -> (r:
        WatchFileTlsServerConfigProvider)
        ensures
            r.config() == initial,
            r.loader_view() == loader,
            r.watch_view() == watch,
    {
        WatchFileTlsServerConfigProvider { loader, watch, config: ReloadableConfig::new(initial) }
    }

    pub fn get_server_config(&self) -> (r: Arc<ServerConfig>)
        ensures
            *r == self.config(),
    {
        self.config.current()
    }

    /// Takes the outcome of a load made after a change: see [`ReloadableConfig::apply`].
    pub fn apply_reload<E>(&mut self, loaded: Result<ServerConfig, E>) -> (r: Option<E>)
        ensures
            final(self).loader_view() == old(self).loader_view(),
            final(self).watch_view() == old(self).watch_view(),
            match loaded {
                Ok(c) => final(self).config() == c && r is None,
                Err(e) => final(self).config() == old(self).config() && r == Some(e),
            },
    {
        self.config.apply(loaded)
    }

    pub fn loader(&self) -> (r: &FileTlsServerConfigLoader)
        ensures
            *r == self.loader_view(),
    {
        &self.loader
    }

    pub fn watch(&self) -> (r: Watch)
        ensures
            r == self.watch_view(),
    {
        self.watch
    }
}

/// What serving a connection's TLS configuration takes: a configuration at
/// hand, or a load of the files at `paths` first (certificates, then key),
/// whose outcome goes to [`TlsServerConfigProvider::finish_reload`].
pub enum ServerConfigStep {
    Ready(Arc<ServerConfig>),
    Reload { paths: [Vec<u8>; 2] },
}

/// The ways a TLS host's server configuration can be provided.
pub enum TlsServerConfigProvider {
    Static(StaticFileTlsServerConfigProvider),
    Dynamic(DynamicFileTlsServerConfigProvider),
    Watch(WatchFileTlsServerConfigProvider),
}

impl TlsServerConfigProvider {
    /// The configuration handed out when no load is made (for `Dynamic`, the
    /// last one that loaded).
    pub open spec fn config(self) -> ServerConfig {
        match self {
            TlsServerConfigProvider::Static(p) => p.config(),
            TlsServerConfigProvider::Dynamic(p) => p.config(),
            TlsServerConfigProvider::Watch(p) => p.config(),
        }
    }

    /// Keeps `loaded`, the configuration that the files gave.
    pub fn static_file(loaded: ServerConfig) -> (r: TlsServerConfigProvider)
        ensures
            r is Static,
            r.config() == loaded,
    {
        TlsServerConfigProvider::Static(StaticFileTlsServerConfigProvider::new(loaded))
    }

    /// Loads the files of `loader` for every connection, starting from
    /// `initial`, the configuration that the first load gave.
    pub fn dynamic_file(loader: FileTlsServerConfigLoader, initial: ServerConfig) -> (r:
        TlsServerConfigProvider)
        ensures
            r matches TlsServerConfigProvider::Dynamic(p) && p.loader_view() == loader,
            r.config() == initial,
    {
        TlsServerConfigProvider::Dynamic(DynamicFileTlsServerConfigProvider::new(loader, initial))
    }

    /// Loads the files of `loader` again when `watch` reports a change,
    /// starting from `initial`, the configuration that the first load gave.
    pub fn watch_file(loader: FileTlsServerConfigLoader, watch: Watch, initial: ServerConfig) -> (r:
        TlsServerConfigProvider)
        ensures
            r matches TlsServerConfigProvider::Watch(p) && p.loader_view() == loader
                && p.watch_view() == watch,
            r.config() == initial,
    {
        TlsServerConfigProvider::Watch(WatchFileTlsServerConfigProvider::new(loader, watch, initial))
    }

    /// What serving the next connection takes: the configuration at hand,
    /// except for `Dynamic`, which loads its files first.
    pub fn get_server_config(&self) -> (r: ServerConfigStep)
        ensures
            match self {
                TlsServerConfigProvider::Dynamic(p) => r matches ServerConfigStep::Reload { paths }
                    && paths@[0]@ == p.loader_view().certs_path() && paths@[1]@
                    == p.loader_view().key_path(),
                _ => r matches ServerConfigStep::Ready(c) && *c == self.config(),
            },
    {
        match self {
            TlsServerConfigProvider::Static(p) => ServerConfigStep::Ready(p.get_server_config()),
            TlsServerConfigProvider::Dynamic(p) => ServerConfigStep::Reload {
                paths: p.loader().paths(),
            },
            TlsServerConfigProvider::Watch(p) => ServerConfigStep::Ready(p.get_server_config()),
        }
    }

    /// The configuration for the connection, given the outcome of the load
    /// that [`get_server_config`](Self::get_server_config) asked for.
    pub fn finish_reload<E>(&mut self, loaded: Result<ServerConfig, E>) -> (r: (
        Arc<ServerConfig>,
        Option<E>,
    ))
        requires
            *old(self) is Dynamic,
        ensures
            *final(self) is Dynamic,
            final(self)->Dynamic_0.loader_view() == old(self)->Dynamic_0.loader_view(),
            *r.0 == final(self).config(),
            match loaded {
                Ok(c) => final(self).config() == c && r.1 is None,
                Err(e) => final(self).config() == old(self).config() && r.1 == Some(e),
            },
    {
        match self {
            TlsServerConfigProvider::Dynamic(p) => p.get_server_config(loaded),
            _ => {
                proof {
                    assert(false);
                }
                (self.current_config(), None)
            },
        }
    }

    /// The configuration handed out when no load is made.
    pub fn current_config(&self) -> (r: Arc<ServerConfig>)
        ensures
            *r == self.config(),
    {
        match self {
            TlsServerConfigProvider::Static(p) => p.get_server_config(),
            TlsServerConfigProvider::Dynamic(p) => p.config.current(),
            TlsServerConfigProvider::Watch(p) => p.get_server_config(),
        }
    }

    /// Takes the outcome of a load made after the watch reported a change;
    /// only `Watch` providers are loaded so.
    pub fn apply_watch_reload<E>(&mut self, loaded: Result<ServerConfig, E>) -> (r: Option<E>)
        requires
            *old(self) is Watch,
        ensures
            *final(self) is Watch,
            final(self)->Watch_0.loader_view() == old(self)->Watch_0.loader_view(),
            final(self)->Watch_0.watch_view() == old(self)->Watch_0.watch_view(),
            match loaded {
                Ok(c) => final(self).config() == c && r is None,
                Err(e) => final(self).config() == old(self).config() && r == Some(e),
            },
    {
        match self {
            TlsServerConfigProvider::Watch(p) => p.apply_reload(loaded),
            _ => {
                proof {
                    assert(false);
                }
                None
            },
        }
    }
}

} // verus!
