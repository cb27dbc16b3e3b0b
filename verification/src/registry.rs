use vstd::prelude::*;

use crate::identity::Identity;

verus! {

/// Upper bound on the number of registered nodes in each category.
pub const MAX_NODES: u64 = 1000;

/// The singleton registry: the deployment owner and one monotonic,
/// capacity-bounded counter per node category.
#[derive(Clone, Debug, PartialEq)]
pub struct ErebrusRegistry {
    pub owner: Identity,
    pub current_wifi_node: u64,
    pub current_vpn_node: u64,
}

/// Well-formedness of the registry: each category's counter stays within
/// the capacity cap. `initialize` establishes it and every registration
/// preserves it.
pub open spec fn registry_wf(r: ErebrusRegistry) -> bool {
    r.current_wifi_node <= MAX_NODES && r.current_vpn_node <= MAX_NODES
}

/// Creates the singleton registry, owned by the caller, with both
/// counters at zero.
pub fn initialize(caller: Identity) -> (r: ErebrusRegistry)
    ensures
        r.owner == caller,
        r.current_wifi_node == 0,
        r.current_vpn_node == 0,
        registry_wf(r),
{
    ErebrusRegistry { owner: caller, current_wifi_node: 0, current_vpn_node: 0 }
}

/// Capacity law: in a well-formed registry — so after any sequence of
/// registrations, each of which preserves well-formedness — neither
/// category's counter exceeds the cap, and together they never exceed
/// twice the cap.
pub proof fn lemma_total_capacity(r: ErebrusRegistry)
    requires
        registry_wf(r),
    ensures
        r.current_wifi_node <= MAX_NODES,
        r.current_vpn_node <= MAX_NODES,
        r.current_wifi_node + r.current_vpn_node <= 2 * MAX_NODES,
{
}

} // verus!
