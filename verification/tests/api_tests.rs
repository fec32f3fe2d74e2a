use consul_rs::api::{
    deregister_path, health_path, poll_query, register_path, register_query, request_body,
    request_url, watch_index, ClientError, Config, ConfigError, ConsulConfig,
};
use consul_rs::agent::ServiceRegisterOpts;
use consul_rs::cache::AddressCache;
use consul_rs::health::ServiceAddress;
use consul_rs::text::{format_address, u64_to_dec};
use consul_rs::watch::{Policy, WatchService};

fn pairs(raw: &[(&str, &str)]) -> Vec<(String, String)> {
    raw.iter().map(|(k, v)| (k.to_string(), v.to_string())).collect()
}

fn target(name: &str, tag: Option<&str>, passing_only: Option<bool>) -> WatchService {
    let mut ws = WatchService::default();
    ws.service_name = name.to_string();
    ws.tag = tag.map(|t| t.to_string());
    ws.passing_only = passing_only;
    ws
}

#[test]
fn decimal_rendering_is_exact() {
    assert_eq!(u64_to_dec(0), "0");
    assert_eq!(u64_to_dec(7), "7");
    assert_eq!(u64_to_dec(8080), "8080");
    assert_eq!(u64_to_dec(1000000), "1000000");
    assert_eq!(u64_to_dec(u64::MAX), "18446744073709551615");
}

#[test]
fn format_address_joins_host_and_port() {
    assert_eq!(format_address("10.0.0.1", 8080), "10.0.0.1:8080");
    assert_eq!(format_address("localhost", 0), "localhost:0");
}

#[test]
fn poll_query_carries_tag_index_passing_and_wait() {
    let ws = target("web", Some("v1"), Some(true));
    let q = poll_query(&ws, 42, &None);
    assert_eq!(
        q,
        pairs(&[("tag", "v1"), ("index", "42"), ("passing", "1"), ("wait", "5s")])
    );
}

#[test]
fn poll_query_skips_empty_tag_and_passing_when_not_asked() {
    let ws = target("web", Some(""), Some(false));
    let q = poll_query(&ws, 0, &None);
    assert_eq!(q, pairs(&[("index", "0")]));

    let ws = target("web", None, None);
    let q = poll_query(&ws, 9, &None);
    assert_eq!(q, pairs(&[("index", "9")]));
}

#[test]
fn poll_query_uses_configured_wait() {
    let ws = target("web", None, Some(true));
    let q = poll_query(&ws, 5, &Some(String::from("30s")));
    assert_eq!(q, pairs(&[("index", "5"), ("passing", "1"), ("wait", "30s")]));
}

#[test]
fn request_body_carries_configured_parameters() {
    let mut cfg = Config::default();
    cfg.datacenter = Some(String::from("dc1"));
    cfg.namespace = Some(String::from("ns1"));
    cfg.wait_time = Some(String::from("10s"));
    cfg.token = Some(String::from("anonymous"));
    let b = request_body(&cfg);
    assert_eq!(
        b,
        pairs(&[
            ("dc", "dc1"),
            ("ns", "ns1"),
            ("wait", "10s"),
            ("X-Consul-Token", "anonymous"),
        ])
    );
}

#[test]
fn request_body_defaults_to_five_second_wait() {
    let b = request_body(&Config::default());
    assert_eq!(b, pairs(&[("wait", "5s")]));
}

#[test]
fn endpoint_paths_are_exact() {
    assert_eq!(health_path("web"), "/v1/health/service/web");
    assert_eq!(deregister_path("321"), "/v1/agent/service/deregister/321");
    assert_eq!(register_path(), "/v1/agent/service/register");
    assert_eq!(request_url("http://127.0.0.1:8500", "/v1/agent/service/register"),
        "http://127.0.0.1:8500/v1/agent/service/register");
}

#[test]
fn register_query_reflects_replace_existing_checks() {
    let mut opts = ServiceRegisterOpts::default();
    assert_eq!(register_query(&opts), pairs(&[]));
    opts.ReplaceExistingChecks = true;
    assert_eq!(register_query(&opts), pairs(&[("replace-existing-checks", "true")]));
}

#[test]
fn watch_index_is_cached_index_or_zero() {
    let mut cache = AddressCache::new();
    assert_eq!(watch_index(&cache, "web", ""), 0);
    cache.put(
        "web",
        "",
        ServiceAddress { index: 9, address: vec![String::from("a:1")] },
    );
    assert_eq!(watch_index(&cache, "web", ""), 9);
    assert_eq!(watch_index(&cache, "web", "v1"), 0);
}

#[test]
fn poll_request_fails_without_configuration() {
    let consul = ConsulConfig { config: None, watch_services: None };
    let cache = AddressCache::new();
    let ws = target("web", None, None);
    let r = consul.poll_request(&cache, &ws);
    assert_eq!(r.err(), Some(ClientError::Uninitialized));
    assert_eq!(ClientError::Uninitialized.message(), "client init err");
}

#[test]
fn poll_request_prepares_path_query_and_index() {
    let consul = ConsulConfig::default();
    let mut cache = AddressCache::new();
    cache.put(
        "web",
        "",
        ServiceAddress { index: 7, address: vec![String::from("a:1")] },
    );
    let ws = target("web", None, Some(true));
    let p = consul.poll_request(&cache, &ws).expect("configured client");
    assert_eq!(p.path, "/v1/health/service/web");
    assert_eq!(p.index, 7);
    assert_eq!(p.query, pairs(&[("index", "7"), ("passing", "1"), ("wait", "5s")]));
}

#[test]
fn validate_accepts_the_default_configuration() {
    assert_eq!(ConsulConfig::default().validate(), Ok(()));
}

#[test]
fn validate_rejects_missing_config() {
    let consul = ConsulConfig { config: None, watch_services: None };
    assert_eq!(consul.validate(), Err(ConfigError::MissingConfig));
    assert_eq!(
        ConfigError::MissingConfig.message(),
        "consul config is empty"
    );
}

#[test]
fn validate_rejects_missing_or_empty_address() {
    let consul = ConsulConfig { config: Some(Config::default()), watch_services: None };
    assert_eq!(consul.validate(), Err(ConfigError::MissingAddress));

    let mut cfg = Config::default();
    cfg.address = Some(String::new());
    let consul = ConsulConfig { config: Some(cfg), watch_services: None };
    assert_eq!(consul.validate(), Err(ConfigError::MissingAddress));
    assert_eq!(
        ConfigError::MissingAddress.message(),
        "consul config address is empty"
    );
}

#[test]
fn validate_rejects_unnamed_watch_target() {
    let mut consul = ConsulConfig::default();
    consul.watch_services = Some(vec![target("web", None, None), target("", None, None)]);
    assert_eq!(consul.validate(), Err(ConfigError::EmptyServiceName));
    assert_eq!(
        ConfigError::EmptyServiceName.message(),
        "watch target service name is empty"
    );
    consul.watch_services = Some(vec![target("web", None, None)]);
    assert_eq!(consul.validate(), Ok(()));
}

#[test]
fn policy_name_round_robin_is_recognised() {
    let mut ws = target("web", None, None);
    assert_eq!(ws.policy(), Policy::Random);
    ws.selection_policy = Some(String::from("random"));
    assert_eq!(ws.policy(), Policy::Random);
    ws.selection_policy = Some(String::from("round_robin"));
    assert_eq!(ws.policy(), Policy::RoundRobin);
}

#[test]
fn tag_or_empty_defaults_to_empty() {
    let ws = target("web", None, None);
    assert_eq!(ws.tag_or_empty(), "");
    let ws = target("web", Some("v1"), None);
    assert_eq!(ws.tag_or_empty(), "v1");
}

#[test]
fn service_address_default_is_empty_at_index_zero() {
    let sa = ServiceAddress::default();
    assert_eq!(sa.index, 0);
    assert!(sa.address.is_empty());
}
