//! Plain value types for proxy and expose configuration entries.

use vstd::prelude::*;

verus! {

/// MeshGatewayConfig controls how mesh gateways are used for upstream
/// connections.
#[derive(Debug, Clone, Default)]
#[allow(non_snake_case)]
pub struct MeshGatewayConfig {
    /// The mode that should be used for the upstream connection.
    pub Mode: Option<String>,
}

/// ExposeConfig describes HTTP paths to expose through a proxy.
#[derive(Debug, Clone, Default)]
#[allow(non_snake_case)]
pub struct ExposeConfig {
    /// Whether paths associated with checks will be exposed.
    pub Checks: Option<bool>,
    /// The list of paths exposed through the proxy.
    pub Paths: Option<Vec<ExposePath>>,
}

/// One path exposed through a proxy.
#[derive(Debug, Clone, Default)]
#[allow(non_snake_case)]
pub struct ExposePath {
    /// The port of the proxy's listener for exposed paths.
    pub ListenerPort: Option<usize>,
    /// The path to expose through the proxy.
    pub Path: Option<String>,
    /// The port that the service listens on for the given path.
    pub LocalPathPort: Option<usize>,
    /// The upstream's service protocol.
    pub Protocol: Option<String>,
    /// Set if this path was parsed from a registered check.
    pub ParsedFromCheck: Option<bool>,
}

} // verus!
