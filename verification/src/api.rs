//! Client configuration, the request parameters the polling client sends,
//! and the watch-round logic that commits poll results into the cache.

use crate::agent::ServiceRegisterOpts;
use crate::cache::{ck, populated, AddressCache, CacheKey, CacheVal};
use crate::health::{ServiceAddress, ServiceEntry};
use crate::text::{address_seq, dec_digits, format_address, u64_to_dec};
use crate::watch::{spec_tag, WatchService};
use std::collections::HashMap;
use vstd::prelude::*;

verus! {

/// Configuration for the creation of a client. Durations are carried as
/// strings in the registry's own form (for example "5s").
#[derive(Debug, Clone)]
pub struct Config {
    /// The address of the registry server.
    pub address: Option<String>,
    /// The URI scheme for the registry server.
    pub scheme: Option<String>,
    /// The datacenter to use; the agent's default when absent.
    pub datacenter: Option<String>,
    /// How long a watch may block; the agent's default when absent.
    pub wait_time: Option<String>,
    /// A per-request ACL token overriding the agent's default.
    pub token: Option<String>,
    /// A file holding the token, read once at startup.
    pub token_file: Option<String>,
    /// The namespace sent along when a request names no other.
    pub namespace: Option<String>,
    pub tls_config: Option<TLSConfig>,
}

impl Default for Config {
    /// A configuration with nothing set.
    fn default() -> (c: Config)
        ensures
            c.address is None,
            c.scheme is None,
            c.datacenter is None,
            c.wait_time is None,
            c.token is None,
            c.token_file is None,
            c.namespace is None,
            c.tls_config is None,
    {
        Config {
            address: None,
            scheme: None,
            datacenter: None,
            wait_time: None,
            token: None,
            token_file: None,
            namespace: None,
            tls_config: None,
        }
    }
}

/// TLS settings for talking to the registry over TLS.
#[derive(Debug, Clone, Default)]
pub struct TLSConfig {
    pub address: Option<String>,
    pub ca_file: Option<String>,
    pub ca_path: Option<String>,
    pub ca_pem: Option<String>,
    pub cert_file: Option<String>,
    pub cert_pem: Option<String>,
    pub key_file: Option<String>,
    pub key_pem: Option<String>,
    pub insecure_skip_verify: Option<bool>,
}

/// Options that parameterize a query. Durations are carried as whole
/// milliseconds.
#[derive(Debug, Clone, Default)]
#[allow(non_snake_case)]
pub struct QueryOptions {
    pub Namespace: Option<String>,
    pub Datacenter: Option<String>,
    pub AllowStale: Option<bool>,
    pub RequireConsistent: Option<bool>,
    pub UseCache: Option<bool>,
    pub MaxAgeMillis: Option<u64>,
    pub StaleIfErrorMillis: Option<u64>,
    pub WaitIndex: Option<usize>,
    pub WaitHash: Option<String>,
    pub WaitTimeMillis: Option<u64>,
    pub Token: Option<String>,
    pub Near: Option<String>,
    pub NodeMeta: Option<HashMap<String, String>>,
    pub RelayFactor: Option<u8>,
    pub LocalOnly: Option<bool>,
    pub Connect: Option<bool>,
    pub Filter: Option<String>,
}

/// The client's whole configuration: the connection settings and the
/// targets the watch loop polls.
#[derive(Debug, Clone)]
pub struct ConsulConfig {
    pub config: Option<Config>,
    pub watch_services: Option<Vec<WatchService>>,
}

impl Default for ConsulConfig {
    /// A local default: the agent on localhost, datacenter "dc1",
    /// nothing watched.
    fn default() -> (c: ConsulConfig)
        ensures
            c.config matches Some(cfg) && cfg.address matches Some(a) && a@
                == "http://127.0.0.1:8500"@,
            c.config matches Some(cfg) && cfg.datacenter matches Some(d) && d@ == "dc1"@,
            c.config matches Some(cfg) && cfg.wait_time is None && cfg.token is None
                && cfg.namespace is None,
            c.watch_services is None,
    {
        let mut config = Config::default();
        config.address = Some("http://127.0.0.1:8500".to_owned());
        config.datacenter = Some("dc1".to_owned());
        ConsulConfig { config: Some(config), watch_services: None }
    }
}

/// Whether a response record carries a usable address and port.
pub open spec fn usable(e: ServiceEntry) -> bool {
    e.Service matches Some(s) && s.Address is Some && s.Port is Some
}

/// The `host:port` address a usable record contributes.
pub open spec fn record_address(e: ServiceEntry) -> Seq<char>
    recommends
        usable(e),
{
    address_seq(e.Service->0.Address->0@, e.Service->0.Port->0 as nat)
}

/// The addresses of the usable records of a response, in response order:
/// every record with a usable address and port contributes one address.
pub open spec fn response_addresses(s: Seq<ServiceEntry>) -> Seq<Seq<char>>
    decreases s.len(),
{
    if s.len() == 0 {
        Seq::<Seq<char>>::empty()
    } else {
        response_addresses(s.drop_last()) + if usable(s.last()) {
            seq![record_address(s.last())]
        } else {
            Seq::<Seq<char>>::empty()
        }
    }
}

/// Whether a record's change index counts toward the new entry's index:
/// a usable record that carries one.
pub open spec fn indexed(e: ServiceEntry) -> bool {
    usable(e) && e.Service->0.ModifyIndex is Some
}

/// The greatest change index carried by the usable records of a response,
/// if any record carries one.
pub open spec fn max_record_index(s: Seq<ServiceEntry>) -> Option<u64>
    decreases s.len(),
{
    if s.len() == 0 {
        None
    } else {
        let rest = max_record_index(s.drop_last());
        if indexed(s.last()) {
            let v = s.last().Service->0.ModifyIndex->0;
            match rest {
                None => Some(v),
                Some(m) => Some(
                    if v > m {
                        v
                    } else {
                        m
                    },
                ),
            }
        } else {
            rest
        }
    }
}

/// The index a successful poll associates with its entry: the maximum
/// per-record change index observed, or the previous index if no usable
/// record carried one.
pub open spec fn response_index(s: Seq<ServiceEntry>, prev: u64) -> u64 {
    match max_record_index(s) {
        None => prev,
        Some(m) => m,
    }
}

/// One poll's observable result: the index computed for it and the
/// addresses it contributed.
pub ghost struct PollResult {
    pub index: u64,
    pub addresses: Seq<Seq<char>>,
}

/// What one successful poll of `entries`, started from `prev` as the last
/// known index, yields.
pub open spec fn poll_of(entries: Seq<ServiceEntry>, prev: u64) -> PollResult {
    PollResult { index: response_index(entries, prev), addresses: response_addresses(entries) }
}

/// The cache contents after committing one poll result for a key: an
/// empty result leaves the cache untouched ("last known good"); any other
/// replaces the key's entry wholesale, cursor at the front.
pub open spec fn commit_result(
    m: Map<CacheKey, CacheVal>,
    k: CacheKey,
    p: PollResult,
) -> Map<CacheKey, CacheVal> {
    if p.addresses.len() == 0 {
        m
    } else {
        m.insert(k, CacheVal { index: p.index, addresses: p.addresses, cursor: 0 })
    }
}

/// The cache contents after committing a sequence of poll results for a
/// key, oldest first.
pub open spec fn commit_results(
    m: Map<CacheKey, CacheVal>,
    k: CacheKey,
    ps: Seq<PollResult>,
) -> Map<CacheKey, CacheVal>
    decreases ps.len(),
{
    if ps.len() == 0 {
        m
    } else {
        commit_result(commit_results(m, k, ps.drop_last()), k, ps.last())
    }
}

/// Build the cache entry one successful poll yields. Every record with a
/// usable address and port contributes its `host:port` address, in
/// response order; the entry's index is the maximum per-record change
/// index observed, or `prev_index` if no usable record carried one.
pub fn build_entry(entries: &Vec<ServiceEntry>, prev_index: u64) -> (sa: ServiceAddress)
    ensures
        sa.addresses() == response_addresses(entries@),
        sa.index == response_index(entries@, prev_index),
{
    let mut address: Vec<String> = Vec::new();
    let mut have_index = false;
    let mut index: u64 = 0;
    let n = entries.len();
    for i in 0..n
        invariant
            n == entries@.len(),
            address@.map_values(|s: String| s@) == response_addresses(entries@.take(i as int)),
            match max_record_index(entries@.take(i as int)) {
                None => !have_index,
                Some(m) => have_index && index == m,
            },
    {
        let ghost prefix = entries@.take(i as int);
        let e = &entries[i];
        match &e.Service {
            Some(svc) => {
                match (&svc.Address, &svc.Port) {
                    (Some(host), Some(port)) => {
                        let addr = format_address(host.as_str(), *port as u64);
                        address.push(addr);
                        match &svc.ModifyIndex {
                            Some(mi) => {
                                if !have_index || *mi > index {
                                    index = *mi;
                                    have_index = true;
                                }
                            },
                            None => {},
                        }
                    },
                    _ => {},
                }
            },
            None => {},
        }
        proof {
            assert(entries@.take(i + 1).drop_last() =~= prefix);
            assert(entries@.take(i + 1).last() == entries@[i as int]);
            assert(address@.map_values(|s: String| s@) =~= response_addresses(
                entries@.take(i + 1),
            ));
        }
    }
    proof {
        assert(entries@.take(n as int) =~= entries@);
    }
    let idx = if have_index {
        index
    } else {
        prev_index
    };
    ServiceAddress { index: idx, address }
}

/// Commit one poll's successful response for a target: build the entry,
/// and, if it holds at least one address, replace the cache entry for the
/// target's key; an empty result leaves the previous entry in place.
/// Returns whether the cache was updated.
pub fn commit_poll(
    cache: &mut AddressCache,
    ws: &WatchService,
    entries: &Vec<ServiceEntry>,
    prev_index: u64,
) -> (updated: bool)
    ensures
        final(cache)@ == commit_result(
            old(cache)@,
            ck(ws.service_name@, spec_tag(*ws)),
            poll_of(entries@, prev_index),
        ),
        updated <==> response_addresses(entries@).len() > 0,
{
    let sa = build_entry(entries, prev_index);
    if sa.address.len() == 0 {
        false
    } else {
        let tag = ws.tag_or_empty();
        cache.put(ws.service_name.as_str(), tag, sa);
        true
    }
}

/// The index a blocking query for the target should send: the cached
/// index for its key, or zero if the key was never successfully polled.
pub fn watch_index(cache: &AddressCache, service_name: &str, tag: &str) -> (i: u64)
    ensures
        i == if cache@.contains_key(ck(service_name@, tag@)) {
            cache@[ck(service_name@, tag@)].index
        } else {
            0u64
        },
{
    match cache.get(service_name, tag) {
        Some(e) => e.index,
        None => 0,
    }
}

/// Law: after a sequence of successful polls for one key whose indices
/// strictly increase and which each returned at least one address, the
/// stored entry carries the greatest index seen across those polls.
pub proof fn lemma_increasing_polls_store_max(
    m: Map<CacheKey, CacheVal>,
    k: CacheKey,
    ps: Seq<PollResult>,
)
    requires
        ps.len() > 0,
        forall|i: int| 0 <= i < ps.len() ==> (#[trigger] ps[i]).addresses.len() > 0,
        forall|i: int, j: int| 0 <= i < j < ps.len() ==> ps[i].index < ps[j].index,
    ensures
        commit_results(m, k, ps).contains_key(k),
        commit_results(m, k, ps)[k].index == ps.last().index,
        forall|i: int|
            0 <= i < ps.len() ==> (#[trigger] ps[i]).index <= commit_results(m, k, ps)[k].index,
{
    assert(ps.last().addresses.len() > 0);
}

/// Law: a poll that returns no addresses never reduces a previously
/// non-empty entry: the commit leaves the cache unchanged, so the key
/// stays populated with its prior addresses.
pub proof fn lemma_empty_poll_keeps_entry(m: Map<CacheKey, CacheVal>, k: CacheKey, p: PollResult)
    requires
        p.addresses.len() == 0,
        populated(m, k),
    ensures
        commit_result(m, k, p) == m,
        populated(commit_result(m, k, p), k),
{
}

/// The startup misconfigurations the client rejects before any polling,
/// so that a bad configuration fails fast rather than at poll time.
#[derive(Debug, Clone, Copy, PartialEq, Eq, Structural)]
pub enum ConfigError {
    /// No configuration at all.
    MissingConfig,
    /// A configuration without a base address, or with an empty one.
    MissingAddress,
    /// A watch target whose service name is empty.
    EmptyServiceName,
}

impl ConfigError {
    /// A short description of the failure.
    pub fn message(&self) -> (r: &'static str)
        ensures
            r@ == match *self {
                ConfigError::MissingConfig => "consul config is empty"@,
                ConfigError::MissingAddress => "consul config address is empty"@,
                ConfigError::EmptyServiceName => "watch target service name is empty"@,
            },
    {
        match self {
            ConfigError::MissingConfig => "consul config is empty",
            ConfigError::MissingAddress => "consul config address is empty",
            ConfigError::EmptyServiceName => "watch target service name is empty",
        }
    }
}

/// A client configuration fit to start: it holds a configuration with a
/// non-empty base address, and every watch target names its service.
pub open spec fn well_configured(c: ConsulConfig) -> bool {
    &&& (match c.config {
        Some(cfg) => cfg.address matches Some(a) && a@.len() > 0,
        None => false,
    })
    &&& (match c.watch_services {
        Some(targets) => forall|i: int|
            0 <= i < targets.len() ==> (#[trigger] targets[i]).service_name@.len() > 0,
        None => true,
    })
}

/// The failure a request-building step reports when the client holds no
/// configuration.
#[derive(Debug, Clone, Copy, PartialEq, Eq, Structural)]
pub enum ClientError {
    Uninitialized,
}

impl ClientError {
    /// A short description of the failure.
    pub fn message(&self) -> (r: &'static str)
        ensures
            r@ == "client init err"@,
    {
        "client init err"
    }
}

/// Everything one blocking poll of a target sends: the health-endpoint
/// path for the service, the query parameters, and the index the query
/// blocks on (also the index a later commit treats as previous).
pub struct PollRequest {
    pub path: String,
    pub query: Vec<(String, String)>,
    pub index: u64,
}

impl ConsulConfig {
    /// Check the configuration once, before the watch loop starts: a
    /// missing configuration or base address, or an unnamed watch target,
    /// is reported here rather than surfacing at poll time.
    pub fn validate(&self) -> (r: Result<(), ConfigError>)
        ensures
            r is Ok <==> well_configured(*self),
            r matches Err(e) ==> match e {
                ConfigError::MissingConfig => self.config is None,
                ConfigError::MissingAddress => self.config matches Some(cfg) && !(cfg.address
                    matches Some(a) && a@.len() > 0),
                ConfigError::EmptyServiceName => {
                    &&& (self.config matches Some(cfg) && cfg.address matches Some(a) && a@.len()
                        > 0)
                    &&& (self.watch_services matches Some(targets) && exists|i: int|
                        0 <= i < targets.len() && (#[trigger] targets[i]).service_name@.len() == 0)
                },
            },
    {
        let cfg = match &self.config {
            Some(cfg) => cfg,
            None => {
                return Err(ConfigError::MissingConfig);
            },
        };
        match &cfg.address {
            Some(a) => {
                if a.as_str().is_empty() {
                    return Err(ConfigError::MissingAddress);
                }
            },
            None => {
                return Err(ConfigError::MissingAddress);
            },
        }
        match &self.watch_services {
            Some(targets) => {
                let n = targets.len();
                for i in 0..n
                    invariant
                        n == targets@.len(),
                        self.config matches Some(cfg) && cfg.address matches Some(a) && a@.len()
                            > 0,
                        self.watch_services matches Some(ts) && ts@ == targets@,
                        forall|j: int|
                            0 <= j < i ==> (#[trigger] targets@[j]).service_name@.len() > 0,
                {
                    if targets[i].service_name.as_str().is_empty() {
                        proof {
                            assert(self.watch_services->0@[i as int].service_name@.len() == 0);
                        }
                        return Err(ConfigError::EmptyServiceName);
                    }
                }
                Ok(())
            },
            None => Ok(()),
        }
    }

    /// Prepare one blocking poll of a target, given the current cache
    /// contents. Fails exactly when the client holds no configuration.
    pub fn poll_request(&self, cache: &AddressCache, ws: &WatchService) -> (r: Result<
        PollRequest,
        ClientError,
    >)
        ensures
            r is Ok <==> self.config is Some,
            r matches Ok(p) ==> {
                let k = ck(ws.service_name@, spec_tag(*ws));
                &&& p.index == (if cache@.contains_key(k) {
                    cache@[k].index
                } else {
                    0u64
                })
                &&& p.path@ == "/v1/health/service/"@ + ws.service_name@
                &&& pairs_view(p.query@) == spec_poll_query(*ws, p.index, self.config->0.wait_time)
            },
            r matches Err(e) ==> e == ClientError::Uninitialized,
    {
        match &self.config {
            Some(cfg) => {
                let tag = ws.tag_or_empty();
                let index = watch_index(cache, ws.service_name.as_str(), tag);
                let path = health_path(ws.service_name.as_str());
                let query = poll_query(ws, index, &cfg.wait_time);
                Ok(PollRequest { path, query, index })
            },
            None => Err(ClientError::Uninitialized),
        }
    }
}

/// The wait bound a request carries: the configured wait, or "5s".
pub open spec fn spec_wait(w: Option<String>) -> Seq<char> {
    match w {
        Some(s) => s@,
        None => "5s"@,
    }
}

/// Pairs of strings, seen as pairs of character sequences.
pub open spec fn pairs_view(s: Seq<(String, String)>) -> Seq<(Seq<char>, Seq<char>)> {
    s.map_values(|p: (String, String)| (p.0@, p.1@))
}

/// The query parameters one blocking poll carries: the tag when one is
/// set and non-empty, the last known index, and, when only passing
/// instances are wanted, the passing flag with the wait bound.
pub open spec fn spec_poll_query(ws: WatchService, index: u64, wait: Option<String>) -> Seq<
    (Seq<char>, Seq<char>),
> {
    (match ws.tag {
        Some(t) => if t@.len() > 0 {
            seq![("tag"@, t@)]
        } else {
            Seq::<(Seq<char>, Seq<char>)>::empty()
        },
        None => Seq::<(Seq<char>, Seq<char>)>::empty(),
    }) + seq![("index"@, dec_digits(index as nat))] + (if ws.passing_only matches Some(true) {
        seq![("passing"@, "1"@), ("wait"@, spec_wait(wait))]
    } else {
        Seq::<(Seq<char>, Seq<char>)>::empty()
    })
}

/// Build the query parameters for one blocking poll of a target, given
/// the last known index for its key and the configured wait bound.
pub fn poll_query(ws: &WatchService, index: u64, wait_time: &Option<String>) -> (q: Vec<
    (String, String),
>)
    ensures
        pairs_view(q@) == spec_poll_query(*ws, index, *wait_time),
{
    let mut q: Vec<(String, String)> = Vec::new();
    match &ws.tag {
        Some(t) => {
            if !t.as_str().is_empty() {
                q.push(("tag".to_owned(), t.clone()));
            }
        },
        None => {},
    }
    q.push(("index".to_owned(), u64_to_dec(index)));
    let passing = match &ws.passing_only {
        Some(b) => *b,
        None => false,
    };
    if passing {
        q.push(("passing".to_owned(), "1".to_owned()));
        let w = match wait_time {
            Some(w) => w.clone(),
            None => "5s".to_owned(),
        };
        q.push(("wait".to_owned(), w));
    }
    proof {
        assert(pairs_view(q@) =~= spec_poll_query(*ws, index, *wait_time));
    }
    q
}

/// The body parameters every request carries: the datacenter and
/// namespace when configured, the wait bound (or its "5s" default), and
/// the ACL token when configured.
pub open spec fn spec_request_body(c: Config) -> Seq<(Seq<char>, Seq<char>)> {
    (match c.datacenter {
        Some(d) => seq![("dc"@, d@)],
        None => Seq::<(Seq<char>, Seq<char>)>::empty(),
    }) + (match c.namespace {
        Some(ns) => seq![("ns"@, ns@)],
        None => Seq::<(Seq<char>, Seq<char>)>::empty(),
    }) + seq![("wait"@, spec_wait(c.wait_time))] + (match c.token {
        Some(t) => seq![("X-Consul-Token"@, t@)],
        None => Seq::<(Seq<char>, Seq<char>)>::empty(),
    })
}

/// Build the body parameters a request of this configuration carries.
pub fn request_body(config: &Config) -> (b: Vec<(String, String)>)
    ensures
        pairs_view(b@) == spec_request_body(*config),
{
    let mut b: Vec<(String, String)> = Vec::new();
    match &config.datacenter {
        Some(d) => {
            b.push(("dc".to_owned(), d.clone()));
        },
        None => {},
    }
    match &config.namespace {
        Some(ns) => {
            b.push(("ns".to_owned(), ns.clone()));
        },
        None => {},
    }
    let w = match &config.wait_time {
        Some(w) => w.clone(),
        None => "5s".to_owned(),
    };
    b.push(("wait".to_owned(), w));
    match &config.token {
        Some(t) => {
            b.push(("X-Consul-Token".to_owned(), t.clone()));
        },
        None => {},
    }
    proof {
        assert(pairs_view(b@) =~= spec_request_body(*config));
    }
    b
}

/// The path of the health endpoint for a service.
pub fn health_path(service_name: &str) -> (p: String)
    ensures
        p@ == "/v1/health/service/"@ + service_name@,
{
    let mut p = "/v1/health/service/".to_owned();
    p.append(service_name);
    p
}

/// The full URL of a request: the configured base address and the path.
pub fn request_url(address: &str, path: &str) -> (u: String)
    ensures
        u@ == address@ + path@,
{
    let mut u = address.to_owned();
    u.append(path);
    u
}

/// The path under which a service is registered with the agent.
pub fn register_path() -> (p: &'static str)
    ensures
        p@ == "/v1/agent/service/register"@,
{
    "/v1/agent/service/register"
}

/// The path that deregisters the service with this identifier.
pub fn deregister_path(service_id: &str) -> (p: String)
    ensures
        p@ == "/v1/agent/service/deregister/"@ + service_id@,
{
    let mut p = "/v1/agent/service/deregister/".to_owned();
    p.append(service_id);
    p
}

/// The query parameters a registration carries: the replace-existing-checks
/// flag when the options ask for it.
pub fn register_query(opts: &ServiceRegisterOpts) -> (q: Vec<(String, String)>)
    ensures
        pairs_view(q@) == if opts.ReplaceExistingChecks {
            seq![("replace-existing-checks"@, "true"@)]
        } else {
            Seq::<(Seq<char>, Seq<char>)>::empty()
        },
{
    let mut q: Vec<(String, String)> = Vec::new();
    if opts.ReplaceExistingChecks {
        q.push(("replace-existing-checks".to_owned(), "true".to_owned()));
    }
    proof {
        if opts.ReplaceExistingChecks {
            assert(pairs_view(q@) =~= seq![("replace-existing-checks"@, "true"@)]);
        } else {
            assert(pairs_view(q@) =~= Seq::<(Seq<char>, Seq<char>)>::empty());
        }
    }
    q
}

} // verus!
