//! Plain value types mirroring the health endpoint's schema, and the
//! cache entry built from its responses.

use crate::agent;
use crate::catalog;
use std::collections::HashMap;
use vstd::prelude::*;

verus! {

/// A single health check of a service or node.
#[derive(Debug, Clone, Default)]
#[allow(non_snake_case)]
pub struct HealthCheck {
    pub Node: Option<String>,
    pub CheckID: Option<String>,
    pub Name: Option<String>,
    pub Status: Option<String>,
    pub Notes: Option<String>,
    pub Output: Option<String>,
    pub ServiceID: Option<String>,
    pub ServiceName: Option<String>,
    pub ServiceTags: Option<Vec<String>>,
    pub Type: Option<String>,
    pub Namespace: Option<String>,
    pub Definition: Option<HealthCheckDefinition>,
    pub CreateIndex: Option<usize>,
    pub ModifyIndex: Option<usize>,
}

/// The details of a health check's execution. Durations are carried as
/// whole milliseconds.
#[derive(Debug, Clone, Default)]
#[allow(non_snake_case)]
pub struct HealthCheckDefinition {
    pub HTTP: Option<String>,
    pub Header: Option<HashMap<String, Vec<String>>>,
    pub Method: Option<String>,
    pub Body: Option<String>,
    pub TLSServerName: Option<String>,
    pub TLSSkipVerify: Option<bool>,
    pub TCP: Option<String>,
    pub IntervalDurationMillis: Option<u64>,
    pub TimeoutDurationMillis: Option<u64>,
    pub DeregisterCriticalServiceAfterDurationMillis: Option<u64>,
    pub IntervalMillis: Option<u64>,
    pub TimeoutMillis: Option<u64>,
    pub DeregisterCriticalServiceAfterMillis: Option<u64>,
}

/// A collection of health checks.
#[derive(Debug, Clone, Default)]
#[allow(non_snake_case)]
pub struct HealthChecks(pub Vec<HealthCheck>);

/// One record of a health-endpoint response: an optional node, an optional
/// service descriptor, and the checks observed for it.
#[derive(Debug, Clone, Default)]
#[allow(non_snake_case)]
pub struct ServiceEntry {
    pub Node: Option<catalog::Node>,
    pub Service: Option<agent::AgentService>,
    pub Checks: Option<HealthChecks>,
}

/// The last successfully observed healthy instance set for one cache key:
/// the change index at which it was observed, and the `host:port` addresses
/// in response order.
#[derive(Debug, Clone)]
pub struct ServiceAddress {
    pub index: u64,
    pub address: Vec<String>,
}

impl Default for ServiceAddress {
    /// An entry observed at index zero with no addresses.
    fn default() -> (sa: ServiceAddress)
        ensures
            sa.index == 0,
            sa.address@ == Seq::<String>::empty(),
    {
        ServiceAddress { index: 0, address: Vec::new() }
    }
}

impl ServiceAddress {
    /// The addresses as character sequences, in stored order.
    pub open spec fn addresses(self) -> Seq<Seq<char>> {
        self.address@.map_values(|s: String| s@)
    }
}

} // verus!
