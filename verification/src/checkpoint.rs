use vstd::prelude::*;

use crate::identity::Identity;
use crate::node::Node;

verus! {

/// One attestation record in a node's append-only checkpoint log. It
/// back-references the node it attests for without owning it, and is
/// immutable once created.
#[derive(Clone, Debug, PartialEq)]
pub struct Checkpoint {
    pub node: Identity,
    pub user: Identity,
    pub data_hash: String,
}

/// The seed tag that domain-separates checkpoint addresses from every
/// other kind of derived address: the bytes of "checkpoint".
pub open spec fn checkpoint_tag() -> Seq<u8> {
    seq![99u8, 104u8, 101u8, 99u8, 107u8, 112u8, 111u8, 105u8, 110u8, 116u8]
}

/// The address that the host's program-derived-address search yields for
/// these seeds under the given program, or nothing in the statistically
/// improbable event that no bump seed yields a valid address. A pure
/// function of its arguments alone: the search hashes the seeds and the
/// program id and involves no state, randomness or machine detail.
pub uninterp spec fn derived_address(
    tag: Seq<u8>,
    node_key: Seq<u8>,
    seq_no: u64,
    program_id: Seq<u8>,
) -> Option<Seq<u8>>;

/// Relies on `Pubkey::try_find_program_address` (anchor_lang's re-export
/// of solana_address): it returns the first address, searching bump seeds
/// downward from 255, whose SHA-256 digest of the seeds, the program id
/// and the derivation marker falls off the ed25519 curve, or `None` when
/// every bump fails; the result is deterministic in the seeds and the
/// program id, and the off-chain path never panics.
#[verifier::external_body]
fn find_derived_address(
    tag: &[u8],
    node_key: &Identity,
    seq_no: u64,
    program_id: &Identity,
) -> (r: Option<Identity>)
    ensures
        r matches Some(a) ==> derived_address(tag@, node_key@, seq_no, program_id@) == Some(a@),
        r is None ==> derived_address(tag@, node_key@, seq_no, program_id@) is None,
{
    let node_pk = anchor_lang::prelude::Pubkey::new_from_array(node_key.bytes);
    let program_pk = anchor_lang::prelude::Pubkey::new_from_array(program_id.bytes);
    let seq_bytes = seq_no.to_le_bytes();
    match anchor_lang::prelude::Pubkey::try_find_program_address(
        &[tag, node_pk.as_ref(), &seq_bytes],
        &program_pk,
    ) {
        Some((address, _bump)) => Some(Identity { bytes: address.to_bytes() }),
        None => None,
    }
}

/// The checkpoint seed tag as run-time bytes.
fn checkpoint_tag_bytes() -> (r: Vec<u8>)
    ensures
        r@ == checkpoint_tag(),
{
    let mut tag: Vec<u8> = Vec::new();
    tag.push(99);
    tag.push(104);
    tag.push(101);
    tag.push(99);
    tag.push(107);
    tag.push(112);
    tag.push(111);
    tag.push(105);
    tag.push(110);
    tag.push(116);
    proof {
        assert(tag@ =~= checkpoint_tag());
    }
    tag
}

/// Derives the storage address of the checkpoint at position `seq_no` of
/// the node stored at `node_key`, under the deriving program
/// `program_id`. Pure: the result is fixed by the arguments alone, never
/// by stored state, so re-deriving an address for a past position always
/// yields the location that position was created at.
pub fn checkpoint_address(node_key: &Identity, seq_no: u64, program_id: &Identity) -> (r: Option<
    Identity,
>)
    ensures
        r matches Some(a) ==> derived_address(checkpoint_tag(), node_key@, seq_no, program_id@)
            == Some(a@),
        (r is Some) == (derived_address(checkpoint_tag(), node_key@, seq_no, program_id@) is Some),
{
    let tag = checkpoint_tag_bytes();
    find_derived_address(tag.as_slice(), node_key, seq_no, program_id)
}

/// Appends a checkpoint to a node's log: derives the record's address
/// from the node's identity and its current checkpoint count, builds the
/// record — back-reference, submitter, attestation payload — and advances
/// the count by exactly one. The count and the record move together: when
/// no address can be derived, nothing changes and nothing is returned.
/// Activity is not required: an inactive node still accepts checkpoints,
/// as an audit trail that survives deactivation.
pub fn device_checkpoint(
    node: &mut Node,
    caller: Identity,
    data_hash: String,
    node_key: &Identity,
    program_id: &Identity,
) -> (r: Option<(Identity, Checkpoint)>)
    requires
        old(node).total_checkpoints < u64::MAX,
    ensures
        (r is Some) == (derived_address(
            checkpoint_tag(),
            node_key@,
            old(node).total_checkpoints,
            program_id@,
        ) is Some),
        r matches Some((addr, cp)) ==> ({
            &&& derived_address(
                checkpoint_tag(),
                node_key@,
                old(node).total_checkpoints,
                program_id@,
            ) == Some(addr@)
            &&& cp == (Checkpoint { node: *node_key, user: caller, data_hash: data_hash })
            &&& final(node).total_checkpoints == old(node).total_checkpoints + 1
            &&& final(node).user == old(node).user
            &&& final(node).device_id == old(node).device_id
            &&& final(node).did == old(node).did
            &&& final(node).location == old(node).location
            &&& final(node).is_active == old(node).is_active
            &&& final(node).details == old(node).details
        }),
        r is None ==> *final(node) == *old(node),
{
    let seq_no = node.total_checkpoints;
    match checkpoint_address(node_key, seq_no, program_id) {
        Some(addr) => {
            let record = Checkpoint { node: *node_key, user: caller, data_hash: data_hash };
            node.total_checkpoints = node.total_checkpoints + 1;
            Some((addr, record))
        },
        None => None,
    }
}

} // verus!
