//! The rule that decides which historical block hashes execution may read.
//!
//! The hash of a block is disclosed only once the block lies at least
//! [`BLOCK_HASH_MARGIN`] blocks below the block being executed, and never
//! below the chain's activation height. More recent hashes are withheld
//! because they are not yet final when execution runs.

use vstd::prelude::*;
use crate::chain::ChainId;

verus! {

/// The number of blocks by which a block must trail the block being executed
/// before its hash is disclosed.
pub const BLOCK_HASH_MARGIN: u64 = 10;

/// Whether the hash of block `to_check` is disclosed while block
/// `current_block` is being executed on chain `chain_id`.
///
/// The disclosed window is the inclusive range from the chain's activation
/// height to `current_block - BLOCK_HASH_MARGIN`; it is empty while fewer than
/// `BLOCK_HASH_MARGIN` blocks exist.
pub open spec fn block_hash_disclosed(chain_id: ChainId, current_block: u64, to_check: u64) -> bool {
    &&& current_block >= BLOCK_HASH_MARGIN
    &&& chain_id.activation_height() <= to_check
    &&& to_check <= current_block - BLOCK_HASH_MARGIN
}

/// Decides whether the hash of block `to_check` may be read while block
/// `current_block` is being executed.
pub fn block_hash_storage_check_range(chain_id: &ChainId, current_block: u64, to_check: u64) -> (allowed: bool)
    ensures
        allowed == block_hash_disclosed(*chain_id, current_block, to_check),
        current_block < 10 ==> !allowed,
        current_block >= 10 ==> allowed == (chain_id.activation_height() <= to_check <= current_block - 10),
{
    let first_block: u64 = chain_id.first_block_with_hash();
    match current_block.checked_sub(BLOCK_HASH_MARGIN) {
        Some(end) => first_block <= to_check && to_check <= end,
        None => false,
    }
}

/// While fewer than ten blocks exist, no block hash is disclosed on any chain.
pub proof fn lemma_nothing_disclosed_below_margin(chain_id: ChainId, current_block: u64, to_check: u64)
    requires
        current_block < 10,
    ensures
        !block_hash_disclosed(chain_id, current_block, to_check),
{
}

/// From block ten on, a block hash is disclosed exactly when its number lies
/// between the activation height and ten below the current block, both
/// included.
pub proof fn lemma_disclosed_window(chain_id: ChainId, current_block: u64, to_check: u64)
    requires
        current_block >= 10,
    ensures
        block_hash_disclosed(chain_id, current_block, to_check) == (chain_id.activation_height()
            <= to_check <= current_block - 10),
{
}

/// On every chain but the production network the hash of block zero is
/// disclosed as soon as ten blocks exist.
pub proof fn lemma_genesis_hash_disclosed_off_mainnet(chain_id: ChainId, current_block: u64)
    requires
        !(chain_id is Mainnet),
        current_block >= 10,
    ensures
        chain_id.activation_height() == 0,
        block_hash_disclosed(chain_id, current_block, 0),
{
}

/// On the production network no hash below the activation height is
/// disclosed, however far back the block lies.
pub proof fn lemma_mainnet_floor(current_block: u64, to_check: u64)
    requires
        to_check < 103_129,
    ensures
        ChainId::Mainnet.activation_height() == 103_129,
        !block_hash_disclosed(ChainId::Mainnet, current_block, to_check),
{
}

} // verus!
