//! Watch targets: what the watch loop polls, and which selection policy
//! answers address requests for each target.

use vstd::prelude::*;

verus! {

/// One service identity to watch continuously: a required service name,
/// an optional tag, whether to restrict results to passing instances,
/// and an optional selection policy name.
#[derive(Debug, Clone)]
pub struct WatchService {
    pub service_name: String,
    pub tag: Option<String>,
    pub passing_only: Option<bool>,
    pub selection_policy: Option<String>,
}

/// How one address is picked among the cached addresses of a service.
#[derive(Debug, Clone, Copy, PartialEq, Eq, Structural)]
pub enum Policy {
    /// Pick a uniformly random cached address on each call.
    Random,
    /// Rotate through the cached addresses with a per-key cursor.
    RoundRobin,
}

/// Whether the target asks for the round-robin policy by name.
pub open spec fn is_round_robin(ws: WatchService) -> bool {
    ws.selection_policy matches Some(p) && p@ == "round_robin"@
}

/// The tag under which the target's addresses are cached: its tag when
/// one is set, otherwise the empty string.
pub open spec fn spec_tag(ws: WatchService) -> Seq<char> {
    match ws.tag {
        Some(t) => t@,
        None => Seq::<char>::empty(),
    }
}

impl Default for WatchService {
    /// An empty target: no name, no tag, no filters, default policy.
    fn default() -> (ws: WatchService)
        ensures
            ws.service_name@ == Seq::<char>::empty(),
            ws.tag is None,
            ws.passing_only is None,
            ws.selection_policy is None,
    {
        WatchService {
            service_name: String::new(),
            tag: None,
            passing_only: None,
            selection_policy: None,
        }
    }
}

impl WatchService {
    /// The tag used in the cache key: the target's tag, or empty.
    pub fn tag_or_empty(&self) -> (t: &str)
        ensures
            t@ == spec_tag(*self),
    {
        match &self.tag {
            Some(t) => t.as_str(),
            None => {
                proof {
                    reveal_strlit("");
                    assert(""@ =~= Seq::<char>::empty());
                }
                ""
            },
        }
    }

    /// The selection policy this target asks for: round-robin when named,
    /// otherwise the random default.
    pub fn policy(&self) -> (p: Policy)
        ensures
            p == Policy::RoundRobin <==> is_round_robin(*self),
    {
        match &self.selection_policy {
            Some(s) => {
                let rr: String = "round_robin".to_owned();
                if s.eq(&rr) {
                    Policy::RoundRobin
                } else {
                    Policy::Random
                }
            },
            None => Policy::Random,
        }
    }
}

} // verus!
