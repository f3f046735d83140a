//! What each answer of the backend means for the read that asked.
//!
//! The backend answers a lookup with a value, with "nothing stored there", or
//! with a failure of its own. These functions turn such an answer into the
//! result of the read. They are total: whatever the backend said, the read
//! has a result.

use vstd::prelude::*;
use crate::error::{FailedRead, StateError};
use crate::felt::Felt;
use crate::types::{ClassHash, CompiledClassHash, ContractAddress, Nonce, StorageKey};

verus! {

/// The result of reading a disclosed block hash, given the backend's answer.
///
/// A disclosed hash that the backend does not hold is an error: zero is kept
/// for hashes that are withheld.
pub open spec fn spec_block_hash_from_answer<E>(
    block_number: u64,
    answer: Result<Option<Felt>, E>,
) -> Result<Felt, StateError> {
    match answer {
        Ok(Some(hash)) => Ok(hash),
        Ok(None) => Err(StateError::HistoricalBlockHashUnavailable),
        Err(_) => Err(StateError::ReadError(FailedRead::BlockHash { block_number })),
    }
}

/// Computes [`spec_block_hash_from_answer`].
#[verifier::when_used_as_spec(spec_block_hash_from_answer)]
pub fn block_hash_from_answer<E>(block_number: u64, answer: Result<Option<Felt>, E>) -> (value:
    Result<Felt, StateError>)
    ensures
        value == spec_block_hash_from_answer(block_number, answer),
{
    match answer {
        Ok(Some(hash)) => Ok(hash),
        Ok(None) => Err(StateError::HistoricalBlockHashUnavailable),
        Err(_) => Err(StateError::ReadError(FailedRead::BlockHash { block_number })),
    }
}

/// The result of reading a storage cell, given the backend's answer. A cell
/// that was never written holds zero.
pub open spec fn spec_storage_from_answer<E>(
    contract_address: ContractAddress,
    key: StorageKey,
    answer: Result<Option<Felt>, E>,
) -> Result<Felt, StateError> {
    match answer {
        Ok(Some(value)) => Ok(value),
        Ok(None) => Ok(Felt::from_u64(0)),
        Err(_) => Err(StateError::ReadError(FailedRead::StorageValue { contract_address, key })),
    }
}

/// Computes [`spec_storage_from_answer`].
#[verifier::when_used_as_spec(spec_storage_from_answer)]
pub fn storage_from_answer<E>(
    contract_address: ContractAddress,
    key: StorageKey,
    answer: Result<Option<Felt>, E>,
) -> (value: Result<Felt, StateError>)
    ensures
        value == spec_storage_from_answer(contract_address, key, answer),
{
    match answer {
        Ok(Some(value)) => Ok(value),
        Ok(None) => Ok(Felt::from_u64(0)),
        Err(_) => Err(StateError::ReadError(FailedRead::StorageValue { contract_address, key })),
    }
}

/// The result of reading a nonce, given the backend's answer. A contract that
/// the state knows nothing of has nonce zero.
pub open spec fn spec_nonce_from_answer<E>(
    contract_address: ContractAddress,
    answer: Result<Option<Felt>, E>,
) -> Result<Nonce, StateError> {
    match answer {
        Ok(Some(nonce)) => Ok(Nonce(nonce)),
        Ok(None) => Ok(Nonce(Felt::from_u64(0))),
        Err(_) => Err(StateError::ReadError(FailedRead::Nonce { contract_address })),
    }
}

/// Computes [`spec_nonce_from_answer`].
#[verifier::when_used_as_spec(spec_nonce_from_answer)]
pub fn nonce_from_answer<E>(contract_address: ContractAddress, answer: Result<Option<Felt>, E>) -> (nonce:
    Result<Nonce, StateError>)
    ensures
        nonce == spec_nonce_from_answer(contract_address, answer),
{
    match answer {
        Ok(Some(nonce)) => Ok(Nonce(nonce)),
        Ok(None) => Ok(Nonce(Felt::from_u64(0))),
        Err(_) => Err(StateError::ReadError(FailedRead::Nonce { contract_address })),
    }
}

/// The result of reading the class hash of a contract, given the backend's
/// answer. Where no contract is deployed the class hash is zero; it is the
/// reader who tells a deployed contract from none.
pub open spec fn spec_class_hash_from_answer<E>(
    contract_address: ContractAddress,
    answer: Result<Option<Felt>, E>,
) -> Result<ClassHash, StateError> {
    match answer {
        Ok(Some(class_hash)) => Ok(ClassHash(class_hash)),
        Ok(None) => Ok(ClassHash(Felt::from_u64(0))),
        Err(_) => Err(StateError::ReadError(FailedRead::ClassHash { contract_address })),
    }
}

/// Computes [`spec_class_hash_from_answer`].
#[verifier::when_used_as_spec(spec_class_hash_from_answer)]
pub fn class_hash_from_answer<E>(
    contract_address: ContractAddress,
    answer: Result<Option<Felt>, E>,
) -> (class_hash: Result<ClassHash, StateError>)
    ensures
        class_hash == spec_class_hash_from_answer(contract_address, answer),
{
    match answer {
        Ok(Some(class_hash)) => Ok(ClassHash(class_hash)),
        Ok(None) => Ok(ClassHash(Felt::from_u64(0))),
        Err(_) => Err(StateError::ReadError(FailedRead::ClassHash { contract_address })),
    }
}

/// The stored body of a class, given the backend's answer. A class that the
/// state does not hold is undeclared: there is no default body.
pub open spec fn spec_stored_class_from_answer<S, E>(
    class_hash: ClassHash,
    answer: Result<Option<S>, E>,
) -> Result<S, StateError> {
    match answer {
        Ok(Some(stored)) => Ok(stored),
        Ok(None) => Err(StateError::UndeclaredClass(class_hash)),
        Err(_) => Err(StateError::ReadError(FailedRead::CompiledClass { class_hash })),
    }
}

/// Computes [`spec_stored_class_from_answer`].
#[verifier::when_used_as_spec(spec_stored_class_from_answer)]
pub fn stored_class_from_answer<S, E>(class_hash: ClassHash, answer: Result<Option<S>, E>) -> (stored:
    Result<S, StateError>)
    ensures
        stored == spec_stored_class_from_answer(class_hash, answer),
{
    match answer {
        Ok(Some(stored)) => Ok(stored),
        Ok(None) => Err(StateError::UndeclaredClass(class_hash)),
        Err(_) => Err(StateError::ReadError(FailedRead::CompiledClass { class_hash })),
    }
}

/// The executable class, given what the converter made of the stored body.
/// A body that does not convert is malformed; the converter's account of the
/// failure is kept.
pub open spec fn spec_executable_class_from_conversion<C>(converted: Result<C, String>) -> Result<
    C,
    StateError,
> {
    match converted {
        Ok(class) => Ok(class),
        Err(reason) => Err(StateError::MalformedClass(reason)),
    }
}

/// Computes [`spec_executable_class_from_conversion`].
#[verifier::when_used_as_spec(spec_executable_class_from_conversion)]
pub fn executable_class_from_conversion<C>(converted: Result<C, String>) -> (class: Result<
    C,
    StateError,
>)
    ensures
        class == spec_executable_class_from_conversion(converted),
{
    match converted {
        Ok(class) => Ok(class),
        Err(reason) => Err(StateError::MalformedClass(reason)),
    }
}

/// The compiled class hash of a class, given the backend's answer, which is
/// the hash recorded with the class when it was declared. A class that the
/// state does not hold is undeclared.
pub open spec fn spec_compiled_class_hash_from_answer<E>(
    class_hash: ClassHash,
    answer: Result<Option<Felt>, E>,
) -> Result<CompiledClassHash, StateError> {
    match answer {
        Ok(Some(compiled_class_hash)) => Ok(CompiledClassHash(compiled_class_hash)),
        Ok(None) => Err(StateError::UndeclaredClass(class_hash)),
        Err(_) => Err(StateError::ReadError(FailedRead::CompiledClassHash { class_hash })),
    }
}

/// Computes [`spec_compiled_class_hash_from_answer`].
#[verifier::when_used_as_spec(spec_compiled_class_hash_from_answer)]
pub fn compiled_class_hash_from_answer<E>(
    class_hash: ClassHash,
    answer: Result<Option<Felt>, E>,
) -> (compiled_class_hash: Result<CompiledClassHash, StateError>)
    ensures
        compiled_class_hash == spec_compiled_class_hash_from_answer(class_hash, answer),
{
    match answer {
        Ok(Some(compiled_class_hash)) => Ok(CompiledClassHash(compiled_class_hash)),
        Ok(None) => Err(StateError::UndeclaredClass(class_hash)),
        Err(_) => Err(StateError::ReadError(FailedRead::CompiledClassHash { class_hash })),
    }
}

/// A class body is never made up: the lookup of a stored class succeeds only
/// with the body that the backend found.
pub proof fn lemma_stored_class_is_never_defaulted<S, E>(
    class_hash: ClassHash,
    answer: Result<Option<S>, E>,
)
    ensures
        stored_class_from_answer(class_hash, answer) matches Ok(stored) ==> answer == Ok::<
            Option<S>,
            E,
        >(Some(stored)),
        answer matches Ok(Some(stored)) ==> stored_class_from_answer(class_hash, answer) == Ok::<
            S,
            StateError,
        >(stored),
{
}

/// A compiled class hash is never made up: its read succeeds only with the
/// hash that the backend found.
pub proof fn lemma_compiled_class_hash_is_never_defaulted<E>(
    class_hash: ClassHash,
    answer: Result<Option<Felt>, E>,
)
    ensures
        compiled_class_hash_from_answer(class_hash, answer) matches Ok(compiled) ==> answer == Ok::<
            Option<Felt>,
            E,
        >(Some(compiled.0)),
        answer matches Ok(Some(found)) ==> compiled_class_hash_from_answer(class_hash, answer)
            == Ok::<CompiledClassHash, StateError>(CompiledClassHash(found)),
{
}

} // verus!
