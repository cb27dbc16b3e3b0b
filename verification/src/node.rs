use vstd::prelude::*;

use crate::errors::ErrorCode;
use crate::identity::Identity;
use crate::registry::{ErebrusRegistry, MAX_NODES, registry_wf};

verus! {

/// The two node categories.
#[derive(Clone, Copy, Debug, PartialEq, Eq, Structural)]
pub enum NodeType {
    WiFi,
    VPN,
}

/// Variant-specific node fields. Holding them inside the variant makes a
/// VPN field on a Wi-Fi node structurally unrepresentable, instead of
/// merely rejected at run time.
#[derive(Clone, Debug, PartialEq)]
pub enum NodeDetails {
    WiFi { ssid: String, price_per_minute: u64 },
    VPN { node_name: String, ip_address: String, isp_info: String, region: String },
}

/// One registered node: the shared header plus its variant's fields.
/// The variant is immutable after creation; `total_checkpoints` only ever
/// advances by one, through the checkpoint operation.
#[derive(Clone, Debug, PartialEq)]
pub struct Node {
    pub user: Identity,
    pub device_id: String,
    pub did: String,
    pub location: String,
    pub is_active: bool,
    pub total_checkpoints: u64,
    pub details: NodeDetails,
}

impl Node {
    /// The category this node was registered under.
    pub open spec fn spec_node_type(&self) -> NodeType {
        match self.details {
            NodeDetails::WiFi { .. } => NodeType::WiFi,
            NodeDetails::VPN { .. } => NodeType::VPN,
        }
    }

    #[verifier::when_used_as_spec(spec_node_type)]
    pub fn node_type(&self) -> (t: NodeType)
        ensures
            t == self.spec_node_type(),
    {
        match &self.details {
            NodeDetails::WiFi { .. } => NodeType::WiFi,
            NodeDetails::VPN { .. } => NodeType::VPN,
        }
    }
}

/// A partial update: overwrite when a new value is present, keep the
/// current one when it is absent. Absence, not emptiness, is the no-op
/// signal: a present-but-empty value still overwrites.
pub open spec fn apply_opt<T>(cur: T, update: Option<T>) -> T {
    match update {
        Some(v) => v,
        None => cur,
    }
}

/// Registers a Wi-Fi node: consumes one Wi-Fi capacity slot of the
/// registry and returns the fresh record — active, owned by the caller,
/// with an empty checkpoint log and only Wi-Fi fields populated. When the
/// Wi-Fi counter has reached the cap, fails with `MaxNodesReached` and
/// leaves the registry unchanged.
pub fn register_wifi_node(
    registry: &mut ErebrusRegistry,
    caller: Identity,
    device_id: String,
    did: String,
    ssid: String,
    location: String,
    price_per_minute: u64,
) -> (r: Result<Node, ErrorCode>)
    ensures
        old(registry).current_wifi_node >= MAX_NODES ==> ({
            &&& r == Err::<Node, ErrorCode>(ErrorCode::MaxNodesReached)
            &&& *final(registry) == *old(registry)
        }),
        old(registry).current_wifi_node < MAX_NODES ==> ({
            &&& final(registry).owner == old(registry).owner
            &&& final(registry).current_wifi_node == old(registry).current_wifi_node + 1
            &&& final(registry).current_vpn_node == old(registry).current_vpn_node
            &&& r == Ok::<Node, ErrorCode>(Node {
                user: caller,
                device_id: device_id,
                did: did,
                location: location,
                is_active: true,
                total_checkpoints: 0,
                details: NodeDetails::WiFi { ssid: ssid, price_per_minute: price_per_minute },
            })
        }),
        registry_wf(*old(registry)) ==> registry_wf(*final(registry)),
{
    if registry.current_wifi_node >= MAX_NODES {
        return Err(ErrorCode::MaxNodesReached);
    }
    registry.current_wifi_node = registry.current_wifi_node + 1;
    Ok(Node {
        user: caller,
        device_id: device_id,
        did: did,
        location: location,
        is_active: true,
        total_checkpoints: 0,
        details: NodeDetails::WiFi { ssid: ssid, price_per_minute: price_per_minute },
    })
}

/// Registers a VPN node: the VPN counterpart of `register_wifi_node`,
/// consuming one VPN capacity slot and populating only VPN fields.
pub fn register_vpn_node(
    registry: &mut ErebrusRegistry,
    caller: Identity,
    device_id: String,
    did: String,
    node_name: String,
    ip_address: String,
    isp_info: String,
    region: String,
    location: String,
) -> (r: Result<Node, ErrorCode>)
    ensures
        old(registry).current_vpn_node >= MAX_NODES ==> ({
            &&& r == Err::<Node, ErrorCode>(ErrorCode::MaxNodesReached)
            &&& *final(registry) == *old(registry)
        }),
        old(registry).current_vpn_node < MAX_NODES ==> ({
            &&& final(registry).owner == old(registry).owner
            &&& final(registry).current_wifi_node == old(registry).current_wifi_node
            &&& final(registry).current_vpn_node == old(registry).current_vpn_node + 1
            &&& r == Ok::<Node, ErrorCode>(Node {
                user: caller,
                device_id: device_id,
                did: did,
                location: location,
                is_active: true,
                total_checkpoints: 0,
                details: NodeDetails::VPN {
                    node_name: node_name,
                    ip_address: ip_address,
                    isp_info: isp_info,
                    region: region,
                },
            })
        }),
        registry_wf(*old(registry)) ==> registry_wf(*final(registry)),
{
    if registry.current_vpn_node >= MAX_NODES {
        return Err(ErrorCode::MaxNodesReached);
    }
    registry.current_vpn_node = registry.current_vpn_node + 1;
    Ok(Node {
        user: caller,
        device_id: device_id,
        did: did,
        location: location,
        is_active: true,
        total_checkpoints: 0,
        details: NodeDetails::VPN {
            node_name: node_name,
            ip_address: ip_address,
            isp_info: isp_info,
            region: region,
        },
    })
}

/// The error, if any, that every update operation of the given intended
/// category must report for this node and caller: an inactive node is
/// rejected first, then a caller other than the node's owner, then a
/// category that does not match the node's variant.
pub open spec fn update_outcome(node: Node, caller: Identity, intended: NodeType) -> Result<
    (),
    ErrorCode,
> {
    if !node.is_active {
        Err(ErrorCode::NodeNotActive)
    } else if node.user@ != caller@ {
        Err(ErrorCode::Unauthorized)
    } else if node.spec_node_type() != intended {
        Err(ErrorCode::InvalidNodeType)
    } else {
        Ok(())
    }
}

/// Partially updates a Wi-Fi node. Each present field overwrites; each
/// absent one leaves the stored value unchanged. Fails — leaving the node
/// untouched — with `NodeNotActive` on a deactivated node, `Unauthorized`
/// when the caller is not the node's owner, and `InvalidNodeType` on a
/// VPN node, checked in that order; fields are never partially applied.
pub fn update_wifi_node(
    node: &mut Node,
    caller: Identity,
    ssid: Option<String>,
    location: Option<String>,
    price_per_minute: Option<u64>,
) -> (r: Result<(), ErrorCode>)
    ensures
        r == update_outcome(*old(node), caller, NodeType::WiFi),
        r is Err ==> *final(node) == *old(node),
        r is Ok ==> (match old(node).details {
            NodeDetails::WiFi { ssid: cur_ssid, price_per_minute: cur_price } => *final(node)
                == (Node {
                user: old(node).user,
                device_id: old(node).device_id,
                did: old(node).did,
                location: apply_opt(old(node).location, location),
                is_active: old(node).is_active,
                total_checkpoints: old(node).total_checkpoints,
                details: NodeDetails::WiFi {
                    ssid: apply_opt(cur_ssid, ssid),
                    price_per_minute: apply_opt(cur_price, price_per_minute),
                },
            }),
            NodeDetails::VPN { .. } => false,
        }),
{
    if !node.is_active {
        return Err(ErrorCode::NodeNotActive);
    }
    if !(node.user == caller) {
        return Err(ErrorCode::Unauthorized);
    }
    match &mut node.details {
        NodeDetails::WiFi { ssid: cur_ssid, price_per_minute: cur_price } => {
            if let Some(new_ssid) = ssid {
                *cur_ssid = new_ssid;
            }
            if let Some(new_price) = price_per_minute {
                *cur_price = new_price;
            }
        },
        NodeDetails::VPN { .. } => {
            return Err(ErrorCode::InvalidNodeType);
        },
    }
    if let Some(new_location) = location {
        node.location = new_location;
    }
    Ok(())
}

/// Partially updates a VPN node: the VPN counterpart of
/// `update_wifi_node`, with the same checks in the same order and the
/// same present-overwrites, absent-keeps rule.
pub fn update_vpn_node(
    node: &mut Node,
    caller: Identity,
    node_name: Option<String>,
    ip_address: Option<String>,
    isp_info: Option<String>,
    region: Option<String>,
    location: Option<String>,
) -> (r: Result<(), ErrorCode>)
    ensures
        r == update_outcome(*old(node), caller, NodeType::VPN),
        r is Err ==> *final(node) == *old(node),
        r is Ok ==> (match old(node).details {
            NodeDetails::VPN {
                node_name: cur_name,
                ip_address: cur_ip,
                isp_info: cur_isp,
                region: cur_region,
            } => *final(node) == (Node {
                user: old(node).user,
                device_id: old(node).device_id,
                did: old(node).did,
                location: apply_opt(old(node).location, location),
                is_active: old(node).is_active,
                total_checkpoints: old(node).total_checkpoints,
                details: NodeDetails::VPN {
                    node_name: apply_opt(cur_name, node_name),
                    ip_address: apply_opt(cur_ip, ip_address),
                    isp_info: apply_opt(cur_isp, isp_info),
                    region: apply_opt(cur_region, region),
                },
            }),
            NodeDetails::WiFi { .. } => false,
        }),
{
    if !node.is_active {
        return Err(ErrorCode::NodeNotActive);
    }
    if !(node.user == caller) {
        return Err(ErrorCode::Unauthorized);
    }
    match &mut node.details {
        NodeDetails::VPN {
            node_name: cur_name,
            ip_address: cur_ip,
            isp_info: cur_isp,
            region: cur_region,
        } => {
            if let Some(new_name) = node_name {
                *cur_name = new_name;
            }
            if let Some(new_ip) = ip_address {
                *cur_ip = new_ip;
            }
            if let Some(new_isp) = isp_info {
                *cur_isp = new_isp;
            }
            if let Some(new_region) = region {
                *cur_region = new_region;
            }
        },
        NodeDetails::WiFi { .. } => {
            return Err(ErrorCode::InvalidNodeType);
        },
    }
    if let Some(new_location) = location {
        node.location = new_location;
    }
    Ok(())
}

/// Deactivates a node. Only the registry's owner — the deployment owner,
/// not the node's own owner — may deactivate; any other caller fails with
/// `Unauthorized` and the node is untouched. Deactivation is one-way and
/// idempotent: it clears `is_active` unconditionally, changes nothing
/// else, and succeeds silently on an already-inactive node.
pub fn deactivate_node(
    node: &mut Node,
    caller: Identity,
    registry: &ErebrusRegistry,
) -> (r: Result<(), ErrorCode>)
    ensures
        registry.owner@ != caller@ ==> ({
            &&& r == Err::<(), ErrorCode>(ErrorCode::Unauthorized)
            &&& *final(node) == *old(node)
        }),
        registry.owner@ == caller@ ==> ({
            &&& r == Ok::<(), ErrorCode>(())
            &&& final(node).is_active == false
            &&& final(node).user == old(node).user
            &&& final(node).device_id == old(node).device_id
            &&& final(node).did == old(node).did
            &&& final(node).location == old(node).location
            &&& final(node).total_checkpoints == old(node).total_checkpoints
            &&& final(node).details == old(node).details
        }),
{
    if !(registry.owner == caller) {
        return Err(ErrorCode::Unauthorized);
    }
    node.is_active = false;
    Ok(())
}

} // verus!
