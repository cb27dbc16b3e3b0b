use vstd::prelude::*;

verus! {

/// The failure kinds of the registry's operations. Every failure is
/// terminal and caller-visible; no operation commits partial state.
#[derive(Clone, Copy, Debug, PartialEq, Eq, Structural)]
pub enum ErrorCode {
    /// A record was addressed with an identifier that resolves to no node.
    InvalidNodeId,
    /// A mutation was attempted on a deactivated node.
    NodeNotActive,
    /// The caller is not the authority the operation requires.
    Unauthorized,
    /// A registration would exceed the per-category capacity cap.
    MaxNodesReached,
    /// The operation's category does not match the node's stored variant.
    InvalidNodeType,
}

} // verus!
