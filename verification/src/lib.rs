//! A permissioned registry of network nodes (Wi-Fi hotspots and VPN
//! relays) contributed by independent operators.
//!
//! The registry keeps capacity-bounded counters of registered nodes,
//! enforces per-node ownership and variant safety on mutation, and derives
//! a deterministic storage address for each record of a node's append-only
//! checkpoint log. The host runtime is expected to authenticate the caller
//! of every operation and to apply each operation atomically; under those
//! assumptions every operation here is a total function from plain values
//! to plain values, with its behaviour stated in its contract.

pub mod checkpoint;
pub mod errors;
pub mod identity;
pub mod node;
pub mod registry;

pub use checkpoint::Checkpoint;
pub use checkpoint::checkpoint_address;
pub use checkpoint::device_checkpoint;
pub use errors::ErrorCode;
pub use identity::Identity;
pub use node::Node;
pub use node::NodeDetails;
pub use node::NodeType;
pub use node::deactivate_node;
pub use node::register_vpn_node;
pub use node::register_wifi_node;
pub use node::update_vpn_node;
pub use node::update_wifi_node;
pub use registry::ErebrusRegistry;
pub use registry::MAX_NODES;
pub use registry::initialize;
