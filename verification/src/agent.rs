//! Plain value types mirroring the agent's schema: checks, weights, and
//! the service descriptor carried by health-endpoint records.

use crate::catalog;
use crate::health;
use std::collections::HashMap;
use vstd::prelude::*;

verus! {

/// A check known to the agent.
#[derive(Debug, Clone, Default)]
#[allow(non_snake_case)]
pub struct AgentCheck {
    pub Node: Option<String>,
    pub CheckID: Option<String>,
    pub Name: Option<String>,
    pub Status: Option<String>,
    pub Notes: Option<String>,
    pub Output: Option<String>,
    pub ServiceID: Option<String>,
    pub ServiceName: Option<String>,
    pub Type: Option<String>,
    pub Definition: Option<health::HealthCheckDefinition>,
    pub Namespace: String,
}

/// A filter expression handed to list endpoints.
#[derive(Debug, Clone, Default)]
pub struct Filter {
    pub filter: String,
}

/// Optional weights for a service.
#[derive(Debug, Clone, Default)]
#[allow(non_snake_case)]
pub struct AgentWeights {
    pub Passing: Option<usize>,
    pub Warning: Option<usize>,
}

/// A service known to the agent, reduced to the plain values the watch
/// subsystem reads: its identity, its network address and port, and the
/// change indices the registry stamps on it.
#[derive(Debug, Clone, Default)]
#[allow(non_snake_case)]
pub struct AgentService {
    pub Kind: Option<String>,
    pub ID: Option<String>,
    pub Service: Option<String>,
    pub Tags: Option<Vec<String>>,
    pub Meta: Option<HashMap<String, String>>,
    pub Port: Option<usize>,
    pub Address: Option<String>,
    pub TaggedAddresses: Option<HashMap<String, catalog::ServiceAddress>>,
    pub Weights: Option<AgentWeights>,
    pub EnableTagOverride: Option<bool>,
    pub CreateIndex: Option<u64>,
    pub ModifyIndex: Option<u64>,
    pub ContentHash: Option<String>,
    pub Namespace: Option<String>,
    pub Datacenter: Option<String>,
}

/// Extra options for service registration.
#[derive(Debug, Clone)]
#[allow(non_snake_case)]
pub struct ServiceRegisterOpts {
    /// When set, checks missing from the registration are deleted from the
    /// agent, so a service and its checks can be registered idempotently.
    pub ReplaceExistingChecks: bool,
}

impl Default for ServiceRegisterOpts {
    /// Existing checks are kept.
    fn default() -> (o: ServiceRegisterOpts)
        ensures
            !o.ReplaceExistingChecks,
    {
        ServiceRegisterOpts { ReplaceExistingChecks: false }
    }
}

/// A node- or service-level check definition used at registration.
/// Intervals and timeouts are carried as duration strings.
#[derive(Debug, Clone, Default)]
#[allow(non_snake_case)]
pub struct AgentServiceCheck {
    pub CheckID: Option<String>,
    pub Name: Option<String>,
    pub Args: Option<Vec<String>>,
    pub DockerContainerID: Option<String>,
    pub Shell: Option<String>,
    pub Interval: Option<String>,
    pub Timeout: Option<String>,
    pub TTL: Option<String>,
    pub HTTP: Option<String>,
    pub Header: Option<HashMap<String, String>>,
    pub Method: Option<String>,
    pub Body: Option<String>,
    pub TCP: Option<String>,
    pub Status: Option<String>,
    pub Notes: Option<String>,
    pub TLSServerName: Option<String>,
    pub TLSSkipVerify: Option<bool>,
    pub GRPC: Option<String>,
    pub GRPCUseTLS: Option<bool>,
    pub AliasNode: Option<String>,
    pub AliasService: Option<String>,
    pub SuccessBeforePassing: Option<i64>,
    pub FailuresBeforeCritical: Option<i64>,
    pub DeregisterCriticalServiceAfter: Option<String>,
}

} // verus!
