//! The identifiers that a state read takes and gives: each is a field
//! element with a role.

use vstd::prelude::*;
use vstd::string::StringExecFns;
use crate::felt::Felt;
use crate::text::prefixed_hex;

verus! {

/// The address of a contract.
#[derive(Clone, Copy, Debug, PartialEq, Eq, Hash, Structural)]
pub struct ContractAddress(pub Felt);

/// The key of a storage cell within one contract.
#[derive(Clone, Copy, Debug, PartialEq, Eq, Hash, Structural)]
pub struct StorageKey(pub Felt);

/// The transaction counter of a contract. Zero for a contract that never
/// sent a transaction.
#[derive(Clone, Copy, Debug, PartialEq, Eq, Hash, Structural)]
pub struct Nonce(pub Felt);

/// The hash that names a declared class. Zero stands for "no class": the
/// contract is not deployed.
#[derive(Clone, Copy, Debug, PartialEq, Eq, Hash, Structural)]
pub struct ClassHash(pub Felt);

/// The hash of the compiled form of a declared class.
#[derive(Clone, Copy, Debug, PartialEq, Eq, Hash, Structural)]
pub struct CompiledClassHash(pub Felt);

/// The block whose state a read is made in.
#[derive(Clone, Copy, Debug, PartialEq, Eq, Hash, Structural)]
pub enum DbBlockId {
    /// The block that is being built on top of the last closed one.
    Pending,
    /// The closed block with this number.
    Number(u64),
}

impl ContractAddress {
    /// The address in the indented form in which diagnostics show it: the
    /// name of the type around the name of the key it wraps, each on a line
    /// of its own, and innermost the hexadecimal numeral.
    pub open spec fn pretty_text(&self) -> Seq<char> {
        "ContractAddress(\n    PatriciaKey(\n        "@ + prefixed_hex(self.0@)
            + ",\n    ),\n)"@
    }

    /// Writes [`ContractAddress::pretty_text`].
    pub fn to_pretty_string(&self) -> (text: String)
        ensures
            text@ == self.pretty_text(),
    {
        let mut text = String::from_str("ContractAddress(\n    PatriciaKey(\n        ");
        text.append(self.0.to_hex_string().as_str());
        text.append(",\n    ),\n)");
        text
    }
}

impl StorageKey {
    /// The key in the indented form in which diagnostics show it, as
    /// [`ContractAddress::pretty_text`] shows an address.
    pub open spec fn pretty_text(&self) -> Seq<char> {
        "StorageKey(\n    PatriciaKey(\n        "@ + prefixed_hex(self.0@) + ",\n    ),\n)"@
    }

    /// Writes [`StorageKey::pretty_text`].
    pub fn to_pretty_string(&self) -> (text: String)
        ensures
            text@ == self.pretty_text(),
    {
        let mut text = String::from_str("StorageKey(\n    PatriciaKey(\n        ");
        text.append(self.0.to_hex_string().as_str());
        text.append(",\n    ),\n)");
        text
    }
}

/// The reserved address under which the state exposes historical block
/// hashes as if they were storage values: the cell at key `n` holds the hash
/// of block `n`.
pub open spec fn is_block_hash_table(contract_address: ContractAddress) -> bool {
    contract_address.0@ == 1
}

} // verus!
