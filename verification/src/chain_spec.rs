//! Chain configuration, read-only from this layer's perspective.

use vstd::prelude::*;

verus! {

use crate::codec::zero_bytes;
use crate::hash256::Hash256;
use crate::signature::{Signature, SIGNATURE_WIDTH};

/// The configuration constants this layer consumes: the slot of the
/// genesis block, the shard identifier of the beacon chain itself, and
/// the two sentinel values used where no real digest or signature exists.
#[derive(Debug, Clone, PartialEq)]
pub struct ChainSpec {
    pub genesis_slot: u64,
    pub beacon_chain_shard_number: u64,
    pub zero_hash: Hash256,
    pub empty_signature: Signature,
}

impl ChainSpec {
    /// Both sentinel values have their canonical width.
    pub open spec fn wf(&self) -> bool {
        self.zero_hash@.len() == 32 && self.empty_signature@.len() == SIGNATURE_WIDTH
    }

    /// The configuration of the foundation chain: genesis at slot
    /// `2^32`, the beacon chain on the highest shard number, and
    /// all-zero sentinels.
    pub fn foundation() -> (r: ChainSpec)
        ensures
            r.genesis_slot == 0x100000000u64,
            r.beacon_chain_shard_number == u64::MAX,
            r.zero_hash@ == zero_bytes(32),
            r.empty_signature@ == zero_bytes(SIGNATURE_WIDTH as nat),
            r.wf(),
    {
        ChainSpec {
            genesis_slot: 0x100000000u64,
            beacon_chain_shard_number: u64::MAX,
            zero_hash: Hash256::zero(),
            empty_signature: Signature::empty(),
        }
    }
}

} // verus!
