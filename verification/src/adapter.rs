//! The state view itself: five reads against the state of one block.

use vstd::prelude::*;
use crate::answer::{
    block_hash_from_answer, class_hash_from_answer, compiled_class_hash_from_answer,
    executable_class_from_conversion, nonce_from_answer, storage_from_answer,
    stored_class_from_answer,
};
use crate::block_hash_range::{block_hash_disclosed, block_hash_storage_check_range};
use crate::chain::ChainId;
use crate::error::StateError;
use crate::felt::Felt;
use crate::types::{
    is_block_hash_table, ClassHash, CompiledClassHash, ContractAddress, DbBlockId, Nonce,
    StorageKey,
};

verus! {

/// A read-only view of the state that a block is executed on.
///
/// The view never changes what it reads from: the writes of an execution are
/// gathered elsewhere, as a state diff, once the execution is over.
#[derive(Debug)]
pub struct BlockifierStateAdapter {
    /// The chain whose state is read.
    pub chain_id: ChainId,
    /// The block whose state is read. `None` while the genesis block is
    /// executed: there is no state yet.
    pub on_top_of_block_id: Option<DbBlockId>,
    /// The number of the block being executed.
    pub block_number: u64,
}

/// Where the value of a storage read comes from.
#[derive(Debug, PartialEq, Eq)]
pub enum StorageSource {
    /// From the view alone: the result is settled without the backend.
    Known(Result<Felt, StateError>),
    /// From the backend's table of block hashes, at this block number.
    BlockHash { block_number: u64 },
    /// From the backend's contract storage: the cell `key` of `contract` in
    /// the state of `block`.
    Cell { block: DbBlockId, contract: Felt, key: Felt },
}

impl BlockifierStateAdapter {
    /// A view for the execution of block `block_number` of chain `chain_id`
    /// on top of the state of `on_top_of_block_id`.
    pub fn new(chain_id: ChainId, block_number: u64, on_top_of_block_id: Option<DbBlockId>) -> (adapter:
        Self)
        ensures
            adapter.chain_id == chain_id,
            adapter.block_number == block_number,
            adapter.on_top_of_block_id == on_top_of_block_id,
    {
        Self { chain_id, on_top_of_block_id, block_number }
    }

    /// Where a storage read gets its value.
    ///
    /// A read at the block-hash table takes its key for a block number. A key
    /// that is none is refused; the hash of a block outside the disclosed
    /// window reads as zero; any other comes from the backend's block hashes.
    /// A read anywhere else is zero while there is no state, and otherwise
    /// comes from the contract storage of the block read from.
    pub open spec fn spec_storage_source(
        &self,
        contract_address: ContractAddress,
        key: StorageKey,
    ) -> StorageSource {
        if is_block_hash_table(contract_address) {
            if key.0@ > u64::MAX {
                StorageSource::Known(Err(StateError::InvalidBlockNumberEncoding))
            } else if !block_hash_disclosed(self.chain_id, self.block_number, key.0@ as u64) {
                StorageSource::Known(Ok(Felt::from_u64(0)))
            } else {
                StorageSource::BlockHash { block_number: key.0@ as u64 }
            }
        } else {
            match self.on_top_of_block_id {
                None => StorageSource::Known(Ok(Felt::from_u64(0))),
                Some(block) => StorageSource::Cell {
                    block,
                    contract: contract_address.0,
                    key: key.0,
                },
            }
        }
    }

    /// Computes [`BlockifierStateAdapter::spec_storage_source`].
    #[verifier::when_used_as_spec(spec_storage_source)]
    pub fn storage_source(&self, contract_address: ContractAddress, key: StorageKey) -> (source:
        StorageSource)
        ensures
            source == self.spec_storage_source(contract_address, key),
    {
        proof {
            Felt::lemma_from_u64_view(1);
            if contract_address.0@ == 1 {
                Felt::lemma_view_injective(contract_address.0, Felt::from_u64(1));
            }
        }
        if contract_address.0 == Felt::from_u64(1) {
            match key.0.to_u64() {
                None => StorageSource::Known(Err(StateError::InvalidBlockNumberEncoding)),
                Some(requested) => {
                    if !block_hash_storage_check_range(&self.chain_id, self.block_number, requested) {
                        StorageSource::Known(Ok(Felt::from_u64(0)))
                    } else {
                        StorageSource::BlockHash { block_number: requested }
                    }
                },
            }
        } else {
            match self.on_top_of_block_id {
                None => StorageSource::Known(Ok(Felt::from_u64(0))),
                Some(block) => StorageSource::Cell {
                    block,
                    contract: contract_address.0,
                    key: key.0,
                },
            }
        }
    }

    /// Reads the storage cell `key` of the contract at `contract_address`.
    ///
    /// `block_hash` and `storage` are the backend's two lookups. At most one
    /// of them is called, at most once, with the arguments that
    /// [`BlockifierStateAdapter::spec_storage_source`] names; where the source
    /// is `Known`, neither is.
    pub fn get_storage_at<E, H, S>(
        &self,
        contract_address: ContractAddress,
        key: StorageKey,
        block_hash: H,
        storage: S,
    ) -> (value: Result<Felt, StateError>) where
        H: FnOnce(u64) -> Result<Option<Felt>, E>,
        S: FnOnce(DbBlockId, Felt, Felt) -> Result<Option<Felt>, E>,

        requires
            (self.storage_source(contract_address, key) matches StorageSource::BlockHash {
                block_number,
            } ==> call_requires(block_hash, (block_number,))),
            (self.storage_source(contract_address, key) matches StorageSource::Cell {
                block,
                contract,
                key: cell,
            } ==> call_requires(storage, (block, contract, cell))),
        ensures
            (match self.storage_source(contract_address, key) {
                StorageSource::Known(known) => value == known,
                StorageSource::BlockHash { block_number } => exists|answer: Result<Option<Felt>, E>|
                    call_ensures(block_hash, (block_number,), answer) && value
                        == block_hash_from_answer(block_number, answer),
                StorageSource::Cell { block, contract, key: cell } => exists|
                    answer: Result<Option<Felt>, E>,
                |
                    call_ensures(storage, (block, contract, cell), answer) && value
                        == storage_from_answer(contract_address, key, answer),
            }),
            is_block_hash_table(contract_address) && key.0@ <= u64::MAX && !block_hash_disclosed(
                self.chain_id,
                self.block_number,
                key.0@ as u64,
            ) ==> value == Ok::<Felt, StateError>(Felt::from_u64(0)),
            self.on_top_of_block_id.is_none() && !(is_block_hash_table(contract_address) && (key.0@
                > u64::MAX || block_hash_disclosed(
                self.chain_id,
                self.block_number,
                key.0@ as u64,
            ))) ==> value == Ok::<Felt, StateError>(Felt::from_u64(0)),
    {
        match self.storage_source(contract_address, key) {
            StorageSource::Known(known) => known,
            StorageSource::BlockHash { block_number } => {
                let answer = block_hash(block_number);
                block_hash_from_answer(block_number, answer)
            },
            StorageSource::Cell { block, contract, key: cell } => {
                let answer = storage(block, contract, cell);
                storage_from_answer(contract_address, key, answer)
            },
        }
    }

    /// Reads the nonce of the contract at `contract_address`.
    ///
    /// `lookup` is the backend's nonce lookup. It is called once, with the
    /// block read from and the address, unless there is no state yet.
    pub fn get_nonce_at<E, L>(&self, contract_address: ContractAddress, lookup: L) -> (nonce: Result<
        Nonce,
        StateError,
    >) where L: FnOnce(DbBlockId, Felt) -> Result<Option<Felt>, E>
        requires
            self.on_top_of_block_id matches Some(block) ==> call_requires(
                lookup,
                (block, contract_address.0),
            ),
        ensures
            self.on_top_of_block_id.is_none() ==> nonce == Ok::<Nonce, StateError>(
                Nonce(Felt::from_u64(0)),
            ),
            self.on_top_of_block_id matches Some(block) ==> exists|answer: Result<Option<Felt>, E>|
                call_ensures(lookup, (block, contract_address.0), answer) && nonce
                    == nonce_from_answer(contract_address, answer),
    {
        match self.on_top_of_block_id {
            None => Ok(Nonce(Felt::from_u64(0))),
            Some(block) => {
                let answer = lookup(block, contract_address.0);
                nonce_from_answer(contract_address, answer)
            },
        }
    }

    /// Reads the class hash of the contract at `contract_address`.
    ///
    /// `lookup` is the backend's class-hash lookup. It is called once, with
    /// the block read from and the address, unless there is no state yet.
    pub fn get_class_hash_at<E, L>(&self, contract_address: ContractAddress, lookup: L) -> (class_hash:
        Result<ClassHash, StateError>) where L: FnOnce(DbBlockId, Felt) -> Result<Option<Felt>, E>
        requires
            self.on_top_of_block_id matches Some(block) ==> call_requires(
                lookup,
                (block, contract_address.0),
            ),
        ensures
            self.on_top_of_block_id.is_none() ==> class_hash == Ok::<ClassHash, StateError>(
                ClassHash(Felt::from_u64(0)),
            ),
            self.on_top_of_block_id matches Some(block) ==> exists|answer: Result<Option<Felt>, E>|
                call_ensures(lookup, (block, contract_address.0), answer) && class_hash
                    == class_hash_from_answer(contract_address, answer),
    {
        match self.on_top_of_block_id {
            None => Ok(ClassHash(Felt::from_u64(0))),
            Some(block) => {
                let answer = lookup(block, contract_address.0);
                class_hash_from_answer(contract_address, answer)
            },
        }
    }

    /// Reads the class declared under `class_hash`, in executable form.
    ///
    /// `lookup` is the backend's lookup of stored class bodies and `convert`
    /// turns a stored body into executable form. `lookup` is called once
    /// unless there is no state yet; `convert` is called once, on the body
    /// that `lookup` found, and not at all where it found none.
    pub fn get_compiled_contract_class<S, C, E, L, R>(
        &self,
        class_hash: ClassHash,
        lookup: L,
        convert: R,
    ) -> (class: Result<C, StateError>) where
        L: FnOnce(DbBlockId, Felt) -> Result<Option<S>, E>,
        R: FnOnce(S) -> Result<C, String>,

        requires
            self.on_top_of_block_id matches Some(block) ==> call_requires(
                lookup,
                (block, class_hash.0),
            ),
            forall|block: DbBlockId, stored: S|
                self.on_top_of_block_id == Some(block) && call_ensures(
                    lookup,
                    (block, class_hash.0),
                    Ok::<Option<S>, E>(Some(stored)),
                ) ==> call_requires(convert, (stored,)),
        ensures
            self.on_top_of_block_id.is_none() ==> class == Err::<C, StateError>(
                StateError::UndeclaredClass(class_hash),
            ),
            self.on_top_of_block_id matches Some(block) ==> exists|answer: Result<Option<S>, E>|
                call_ensures(lookup, (block, class_hash.0), answer) && (match stored_class_from_answer(
                    class_hash,
                    answer,
                ) {
                    Ok(stored) => exists|converted: Result<C, String>|
                        call_ensures(convert, (stored,), converted) && class
                            == executable_class_from_conversion(converted),
                    Err(error) => class == Err::<C, StateError>(error),
                }),
    {
        match self.on_top_of_block_id {
            None => Err(StateError::UndeclaredClass(class_hash)),
            Some(block) => {
                let answer = lookup(block, class_hash.0);
                match stored_class_from_answer(class_hash, answer) {
                    Ok(stored) => {
                        let converted = convert(stored);
                        executable_class_from_conversion(converted)
                    },
                    Err(error) => Err(error),
                }
            },
        }
    }

    /// Reads the compiled class hash of the class declared under
    /// `class_hash`.
    ///
    /// `lookup` is the backend's lookup of the compiled class hash recorded
    /// with a class. It is called once unless there is no state yet.
    pub fn get_compiled_class_hash<E, L>(&self, class_hash: ClassHash, lookup: L) -> (compiled_class_hash:
        Result<CompiledClassHash, StateError>) where
        L: FnOnce(DbBlockId, Felt) -> Result<Option<Felt>, E>,

        requires
            self.on_top_of_block_id matches Some(block) ==> call_requires(
                lookup,
                (block, class_hash.0),
            ),
        ensures
            self.on_top_of_block_id.is_none() ==> compiled_class_hash == Err::<
                CompiledClassHash,
                StateError,
            >(StateError::UndeclaredClass(class_hash)),
            self.on_top_of_block_id matches Some(block) ==> exists|answer: Result<Option<Felt>, E>|
                call_ensures(lookup, (block, class_hash.0), answer) && compiled_class_hash
                    == compiled_class_hash_from_answer(class_hash, answer),
    {
        match self.on_top_of_block_id {
            None => Err(StateError::UndeclaredClass(class_hash)),
            Some(block) => {
                let answer = lookup(block, class_hash.0);
                compiled_class_hash_from_answer(class_hash, answer)
            },
        }
    }
}

/// A read at the block-hash table, of a block whose hash is withheld, is
/// settled by the view alone: it gives zero and never an error, whatever the
/// backend holds.
pub proof fn lemma_withheld_block_hash_reads_zero(
    adapter: BlockifierStateAdapter,
    contract_address: ContractAddress,
    key: StorageKey,
)
    requires
        is_block_hash_table(contract_address),
        key.0@ <= u64::MAX,
        !block_hash_disclosed(adapter.chain_id, adapter.block_number, key.0@ as u64),
    ensures
        adapter.storage_source(contract_address, key) == StorageSource::Known(
            Ok(Felt::from_u64(0)),
        ),
        Felt::from_u64(0)@ == 0,
{
    Felt::lemma_from_u64_view(0);
}

/// While there is no state yet, a storage read is settled by the view alone
/// and gives zero. The one exception is a read at the block-hash table that
/// is not withheld: its key is no block number, or the hash of that block is
/// disclosed.
pub proof fn lemma_genesis_storage_reads_zero(
    adapter: BlockifierStateAdapter,
    contract_address: ContractAddress,
    key: StorageKey,
)
    requires
        adapter.on_top_of_block_id is None,
        !(is_block_hash_table(contract_address) && (key.0@ > u64::MAX || block_hash_disclosed(
            adapter.chain_id,
            adapter.block_number,
            key.0@ as u64,
        ))),
    ensures
        adapter.storage_source(contract_address, key) == StorageSource::Known(
            Ok(Felt::from_u64(0)),
        ),
        Felt::from_u64(0)@ == 0,
{
    Felt::lemma_from_u64_view(0);
}

} // verus!
