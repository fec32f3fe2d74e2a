//! Plain value types mirroring the registry's catalog schema.

use std::collections::HashMap;
use vstd::prelude::*;

verus! {

/// A node known to the registry's catalog.
#[derive(Debug, Clone, Default)]
#[allow(non_snake_case)]
pub struct Node {
    pub ID: Option<String>,
    pub Node: Option<String>,
    pub Address: Option<String>,
    pub Datacenter: Option<String>,
    pub TaggedAddresses: Option<HashMap<String, String>>,
    pub Meta: Option<HashMap<String, String>>,
    pub CreateIndex: Option<u64>,
    pub ModifyIndex: Option<u64>,
}

/// A tagged address of a catalog service.
#[derive(Debug, Clone, Default)]
#[allow(non_snake_case)]
pub struct ServiceAddress {
    pub Address: Option<String>,
    pub Port: Option<usize>,
}

} // verus!
