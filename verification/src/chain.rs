//! Chain identities and the height at which each chain began to expose
//! historical block hashes.

use vstd::prelude::*;

verus! {

/// The first block of the production network whose state holds block hashes.
pub const MAINNET_ACTIVATION_HEIGHT: u64 = 103_129;

/// The identity of a chain.
#[derive(Debug, PartialEq, Eq, Hash, PartialOrd, Ord)]
pub enum ChainId {
    /// The production network.
    Mainnet,
    /// The public test network.
    Sepolia,
    /// The integration test network.
    IntegrationSepolia,
    /// Any other chain, by name.
    Other(String),
}

impl Clone for ChainId {
    fn clone(&self) -> (copy: Self)
        ensures
            copy == *self,
    {
        match self {
            ChainId::Mainnet => ChainId::Mainnet,
            ChainId::Sepolia => ChainId::Sepolia,
            ChainId::IntegrationSepolia => ChainId::IntegrationSepolia,
            ChainId::Other(name) => ChainId::Other(name.clone()),
        }
    }
}

impl ChainId {
    /// The first block number whose hash the chain's state can hold: a fixed
    /// historical height on the production network, zero everywhere else.
    pub open spec fn activation_height(self) -> u64 {
        if self is Mainnet {
            MAINNET_ACTIVATION_HEIGHT
        } else {
            0
        }
    }

    /// Computes [`ChainId::activation_height`].
    pub fn first_block_with_hash(&self) -> (height: u64)
        ensures
            height == self.activation_height(),
    {
        match self {
            ChainId::Mainnet => MAINNET_ACTIVATION_HEIGHT,
            _ => 0,
        }
    }
}

} // verus!
