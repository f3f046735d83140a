use state_adapter::answer::{
    block_hash_from_answer, class_hash_from_answer, compiled_class_hash_from_answer,
    executable_class_from_conversion, nonce_from_answer, storage_from_answer,
    stored_class_from_answer,
};
use state_adapter::error::{FailedRead, StateError};
use state_adapter::felt::Felt;
use state_adapter::types::{ClassHash, CompiledClassHash, ContractAddress, Nonce, StorageKey};

type Answer = Result<Option<Felt>, String>;

fn failure() -> Answer {
    Err("database is corrupt at offset 4096".to_string())
}

#[test]
fn block_hash_answers() {
    let hash = Felt::from_u64(0xabcdef);
    assert_eq!(block_hash_from_answer(7, Answer::Ok(Some(hash))), Ok(hash));
    assert_eq!(
        block_hash_from_answer(7, Answer::Ok(None)),
        Err(StateError::HistoricalBlockHashUnavailable)
    );
    assert_eq!(
        block_hash_from_answer(7, failure()),
        Err(StateError::ReadError(FailedRead::BlockHash { block_number: 7 }))
    );
}

#[test]
fn stored_zero_block_hash_is_not_taken_for_missing() {
    let zero = Felt::from_u64(0);
    assert_eq!(block_hash_from_answer(3, Answer::Ok(Some(zero))), Ok(zero));
}

#[test]
fn storage_answers() {
    let contract_address = ContractAddress(Felt::from_u64(0x1234));
    let key = StorageKey(Felt::from_u64(5));
    let value = Felt::from_u64(99);
    assert_eq!(storage_from_answer(contract_address, key, Answer::Ok(Some(value))), Ok(value));
    assert_eq!(
        storage_from_answer(contract_address, key, Answer::Ok(None)),
        Ok(Felt::from_u64(0))
    );
    assert_eq!(
        storage_from_answer(contract_address, key, failure()),
        Err(StateError::ReadError(FailedRead::StorageValue { contract_address, key }))
    );
}

#[test]
fn nonce_answers() {
    let contract_address = ContractAddress(Felt::from_u64(0x1234));
    assert_eq!(
        nonce_from_answer(contract_address, Answer::Ok(Some(Felt::from_u64(3)))),
        Ok(Nonce(Felt::from_u64(3)))
    );
    assert_eq!(
        nonce_from_answer(contract_address, Answer::Ok(None)),
        Ok(Nonce(Felt::from_u64(0)))
    );
    assert_eq!(
        nonce_from_answer(contract_address, failure()),
        Err(StateError::ReadError(FailedRead::Nonce { contract_address }))
    );
}

#[test]
fn class_hash_answers() {
    let contract_address = ContractAddress(Felt::from_u64(0x1234));
    assert_eq!(
        class_hash_from_answer(contract_address, Answer::Ok(Some(Felt::from_u64(77)))),
        Ok(ClassHash(Felt::from_u64(77)))
    );
    assert_eq!(
        class_hash_from_answer(contract_address, Answer::Ok(None)),
        Ok(ClassHash(Felt::from_u64(0)))
    );
    assert_eq!(
        class_hash_from_answer(contract_address, failure()),
        Err(StateError::ReadError(FailedRead::ClassHash { contract_address }))
    );
}

#[test]
fn stored_class_answers() {
    let class_hash = ClassHash(Felt::from_u64(77));
    let found: Result<Option<&str>, String> = Ok(Some("class body"));
    assert_eq!(stored_class_from_answer(class_hash, found), Ok("class body"));
    let missing: Result<Option<&str>, String> = Ok(None);
    assert_eq!(
        stored_class_from_answer(class_hash, missing),
        Err(StateError::UndeclaredClass(class_hash))
    );
    let failed: Result<Option<&str>, String> = Err("disk failure".to_string());
    assert_eq!(
        stored_class_from_answer(class_hash, failed),
        Err(StateError::ReadError(FailedRead::CompiledClass { class_hash }))
    );
}

#[test]
fn conversion_outcomes() {
    let converted: Result<u32, String> = Ok(5);
    assert_eq!(executable_class_from_conversion(converted), Ok(5));
    let rejected: Result<u32, String> = Err("entry point out of range".to_string());
    assert_eq!(
        executable_class_from_conversion(rejected),
        Err(StateError::MalformedClass("entry point out of range".to_string()))
    );
}

#[test]
fn compiled_class_hash_answers() {
    let class_hash = ClassHash(Felt::from_u64(77));
    assert_eq!(
        compiled_class_hash_from_answer(class_hash, Answer::Ok(Some(Felt::from_u64(88)))),
        Ok(CompiledClassHash(Felt::from_u64(88)))
    );
    assert_eq!(
        compiled_class_hash_from_answer(class_hash, Answer::Ok(None)),
        Err(StateError::UndeclaredClass(class_hash))
    );
    assert_eq!(
        compiled_class_hash_from_answer(class_hash, failure()),
        Err(StateError::ReadError(FailedRead::CompiledClassHash { class_hash }))
    );
}

#[test]
fn failures_do_not_leak_what_the_backend_said() {
    let contract_address = ContractAddress(Felt::from_u64(0x1234));
    let error = nonce_from_answer(contract_address, failure()).unwrap_err();
    let StateError::ReadError(failed) = error else {
        panic!("a backend failure is a read error");
    };
    let message = failed.message();
    assert_eq!(
        message,
        "Failed to retrieve nonce for contract ContractAddress(\n    PatriciaKey(\n        0x1234,\n    ),\n)"
    );
    assert!(!message.contains("corrupt"));
}
