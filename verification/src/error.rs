//! The ways in which a state read fails.

use vstd::prelude::*;
use vstd::string::StringExecFns;
use crate::text::{decimal_numeral, decimal_string};
use crate::types::{ClassHash, ContractAddress, StorageKey};

verus! {

/// A lookup that the backend could not carry out, by kind and key. It says
/// which question went unanswered and nothing of why: the backend's own
/// diagnostics stay with the backend.
#[derive(Clone, Copy, Debug, PartialEq, Eq, Hash, Structural)]
pub enum FailedRead {
    /// The hash of the block with this number.
    BlockHash { block_number: u64 },
    /// The value of a storage cell.
    StorageValue { contract_address: ContractAddress, key: StorageKey },
    /// The nonce of a contract.
    Nonce { contract_address: ContractAddress },
    /// The class hash of a contract.
    ClassHash { contract_address: ContractAddress },
    /// The body of a class.
    CompiledClass { class_hash: ClassHash },
    /// The recorded compiled class hash of a class.
    CompiledClassHash { class_hash: ClassHash },
}

impl FailedRead {
    /// The message that tells a caller which lookup failed: the kind of the
    /// lookup and its key, and nothing else.
    ///
    /// A block number is written in decimal. The contract of a storage cell
    /// or a nonce, and the key of a storage cell, are written in their
    /// indented form. The contract of a class hash, and the hash of a class,
    /// are written in decimal.
    pub open spec fn message_text(&self) -> Seq<char> {
        match *self {
            FailedRead::BlockHash { block_number } => {
                "Failed to retrieve block hash for block number "@ + decimal_numeral(
                    block_number as nat,
                )
            },
            FailedRead::StorageValue { contract_address, key } => {
                "Failed to retrieve storage value for contract "@ + contract_address.pretty_text()
                    + " at key "@ + key.pretty_text()
            },
            FailedRead::Nonce { contract_address } => {
                "Failed to retrieve nonce for contract "@ + contract_address.pretty_text()
            },
            FailedRead::ClassHash { contract_address } => {
                "Failed to retrieve class hash for contract "@ + decimal_numeral(
                    contract_address.0@,
                )
            },
            FailedRead::CompiledClass { class_hash } => {
                "Failed to retrieve compiled class "@ + decimal_numeral(class_hash.0@)
            },
            FailedRead::CompiledClassHash { class_hash } => {
                "Failed to retrieve compiled class hash "@ + decimal_numeral(class_hash.0@)
            },
        }
    }

    /// Writes [`FailedRead::message_text`].
    pub fn message(&self) -> (text: String)
        ensures
            text@ == self.message_text(),
    {
        match self {
            FailedRead::BlockHash { block_number } => {
                let mut text = String::from_str("Failed to retrieve block hash for block number ");
                text.append(decimal_string(*block_number).as_str());
                text
            },
            FailedRead::StorageValue { contract_address, key } => {
                let mut text = String::from_str("Failed to retrieve storage value for contract ");
                text.append(contract_address.to_pretty_string().as_str());
                text.append(" at key ");
                text.append(key.to_pretty_string().as_str());
                text
            },
            FailedRead::Nonce { contract_address } => {
                let mut text = String::from_str("Failed to retrieve nonce for contract ");
                text.append(contract_address.to_pretty_string().as_str());
                text
            },
            FailedRead::ClassHash { contract_address } => {
                let mut text = String::from_str("Failed to retrieve class hash for contract ");
                text.append(contract_address.0.to_decimal_string().as_str());
                text
            },
            FailedRead::CompiledClass { class_hash } => {
                let mut text = String::from_str("Failed to retrieve compiled class ");
                text.append(class_hash.0.to_decimal_string().as_str());
                text
            },
            FailedRead::CompiledClassHash { class_hash } => {
                let mut text = String::from_str("Failed to retrieve compiled class hash ");
                text.append(class_hash.0.to_decimal_string().as_str());
                text
            },
        }
    }
}

/// Why a state read gave no value.
#[derive(Debug, PartialEq, Eq)]
pub enum StateError {
    /// The backend failed while it was asked for the named item.
    ReadError(FailedRead),
    /// The block hash may be disclosed, but the backend holds none for that
    /// block.
    HistoricalBlockHashUnavailable,
    /// The storage key used at the block-hash table is no block number: it
    /// does not fit in 64 bits.
    InvalidBlockNumberEncoding,
    /// No class is declared under this hash in the state read, or there is no
    /// state yet to read from.
    UndeclaredClass(ClassHash),
    /// The class is declared, but its stored body could not be turned into
    /// executable form. Holds the converter's account of the failure.
    MalformedClass(String),
}

impl Clone for StateError {
    fn clone(&self) -> (copy: Self)
        ensures
            copy == *self,
    {
        match self {
            StateError::ReadError(failed) => StateError::ReadError(*failed),
            StateError::HistoricalBlockHashUnavailable => StateError::HistoricalBlockHashUnavailable,
            StateError::InvalidBlockNumberEncoding => StateError::InvalidBlockNumberEncoding,
            StateError::UndeclaredClass(class_hash) => StateError::UndeclaredClass(*class_hash),
            StateError::MalformedClass(reason) => StateError::MalformedClass(reason.clone()),
        }
    }
}

} // verus!
