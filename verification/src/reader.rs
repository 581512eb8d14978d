//! The readers.
//!
//! A reader is bound to one block when it is made, and the block cannot be
//! changed afterwards: every question that it words is worded for the state
//! at that block. It holds the handle through which its user reads the store,
//! and hands it out; it never reads through it itself.

use crate::class_lookup::{
    start, step, ClassFound, ClassLookup, ClassQuery, DeprecatedClassQuery,
};
use crate::errors::{StateError, StateResult};
use crate::lookup::{ClassHashQuery, NonceQuery, StorageQuery};
use crate::types::{
    BlockNumber, ClassHash, CompiledClassHash, ContractAddress, StateNumber, StorageKey,
};
use vstd::prelude::*;

verus! {

/// Reads the state as of one block, and of class bodies those of the older
/// generation only. `R` is the handle to the store's records of state.
pub struct PapyrusStateReader<R> {
    pub reader: R,
    latest_block: BlockNumber,
}

impl<R> PapyrusStateReader<R> {
    /// The handle that the reader holds.
    pub closed spec fn spec_reader(&self) -> R {
        self.reader
    }

    /// The block that the reader is bound to.
    pub closed spec fn spec_latest_block(&self) -> BlockNumber {
        self.latest_block
    }

    /// The state that every read of the reader is scoped to.
    pub open spec fn spec_state_number(&self) -> StateNumber {
        StateNumber(self.spec_latest_block())
    }

    /// A reader over `reader`, bound to `latest_block`.
    pub fn new(reader: R, latest_block: BlockNumber) -> (state_reader: Self)
        ensures
            state_reader.spec_reader() == reader,
            state_reader.spec_latest_block() == latest_block,
    {
        Self { reader, latest_block }
    }

    /// The block that the reader is bound to.
    pub fn latest_block(&self) -> (latest_block: &BlockNumber)
        ensures
            *latest_block == self.spec_latest_block(),
    {
        &self.latest_block
    }

    /// The state that every read of the reader is scoped to.
    #[verifier::when_used_as_spec(spec_state_number)]
    pub fn state_number(&self) -> (state_number: StateNumber)
        ensures
            state_number == self.spec_state_number(),
    {
        StateNumber(self.latest_block)
    }

    /// The question for the value under `key` in the storage of
    /// `contract_address`.
    pub fn get_storage_at(&self, contract_address: ContractAddress, key: StorageKey) -> (query:
        StorageQuery)
        ensures
            query == (StorageQuery {
                state_number: self.spec_state_number(),
                contract_address,
                key,
            }),
    {
        StorageQuery { state_number: self.state_number(), contract_address, key }
    }

    /// The question for the nonce of `contract_address`.
    pub fn get_nonce_at(&self, contract_address: ContractAddress) -> (query: NonceQuery)
        ensures
            query == (NonceQuery { state_number: self.spec_state_number(), contract_address }),
    {
        NonceQuery { state_number: self.state_number(), contract_address }
    }

    /// The question for the hash of the class that is deployed at
    /// `contract_address`.
    pub fn get_class_hash_at(&self, contract_address: ContractAddress) -> (query: ClassHashQuery)
        ensures
            query == (ClassHashQuery { state_number: self.spec_state_number(), contract_address }),
    {
        ClassHashQuery { state_number: self.state_number(), contract_address }
    }

    /// The question for the body of a class, among those of the older
    /// generation alone.
    pub fn get_compiled_contract_class(&self, class_hash: &ClassHash) -> (query:
        DeprecatedClassQuery)
        ensures
            query == (DeprecatedClassQuery {
                state_number: self.spec_state_number(),
                class_hash: *class_hash,
            }),
    {
        DeprecatedClassQuery { state_number: self.state_number(), class_hash: *class_hash }
    }

    /// The hash of the compiled body of a class: the reader does not offer
    /// this read, whatever the class.
    pub fn get_compiled_class_hash(&self, class_hash: ClassHash) -> (result: StateResult<
        CompiledClassHash,
    >)
        ensures
            result == Err::<CompiledClassHash, StateError>(StateError::Unsupported),
    {
        Err(StateError::Unsupported)
    }
}

/// Holds the handle `T` through which the compiled bodies of classes are
/// read.
pub struct PapyrusExecutableClassReader<T> {
    txn: T,
}

impl<T> PapyrusExecutableClassReader<T> {
    /// The handle.
    pub closed spec fn spec_txn(&self) -> T {
        self.txn
    }

    /// A reader of compiled bodies through `txn`.
    pub fn new(txn: T) -> (class_reader: Self)
        ensures
            class_reader.spec_txn() == txn,
    {
        Self { txn }
    }

    /// The handle.
    pub fn txn(&self) -> (txn: &T)
        ensures
            *txn == self.spec_txn(),
    {
        &self.txn
    }
}

/// Reads the state as of one block, and class bodies of both generations.
pub struct PapyrusReader<R, T> {
    state: PapyrusStateReader<R>,
    contract_classes: PapyrusExecutableClassReader<T>,
}

impl<R, T> PapyrusReader<R, T> {
    /// The reader of state that this reader reads through.
    pub closed spec fn spec_state(&self) -> PapyrusStateReader<R> {
        self.state
    }

    /// The reader of compiled bodies that this reader reads through.
    pub closed spec fn spec_contract_classes(&self) -> PapyrusExecutableClassReader<T> {
        self.contract_classes
    }

    /// The state that every read of the reader is scoped to: that of the
    /// reader of state that it was made of.
    pub open spec fn spec_state_number(&self) -> StateNumber {
        self.spec_state().spec_state_number()
    }

    /// A reader made of `state_reader`, which binds it to a block, and of a
    /// reader of compiled bodies through `storage_tx`.
    pub fn new(storage_tx: T, state_reader: PapyrusStateReader<R>) -> (reader: Self)
        ensures
            reader.spec_state() == state_reader,
            reader.spec_contract_classes().spec_txn() == storage_tx,
    {
        let contract_classes = PapyrusExecutableClassReader::new(storage_tx);
        Self { state: state_reader, contract_classes }
    }

    /// The handle to the store's records of state.
    pub fn state_reader(&mut self) -> (reader: &R)
        ensures
            *reader == old(self).spec_state().spec_reader(),
            *final(self) == *old(self),
    {
        &self.state.reader
    }

    /// The reader of compiled bodies.
    pub fn contract_classes(&self) -> (contract_classes: &PapyrusExecutableClassReader<T>)
        ensures
            *contract_classes == self.spec_contract_classes(),
    {
        &self.contract_classes
    }

    /// The state that every read of the reader is scoped to.
    #[verifier::when_used_as_spec(spec_state_number)]
    pub fn state_number(&self) -> (state_number: StateNumber)
        ensures
            state_number == self.spec_state_number(),
    {
        self.state.state_number()
    }

    /// The question for the value under `key` in the storage of
    /// `contract_address`.
    pub fn get_storage_at(&self, contract_address: ContractAddress, key: StorageKey) -> (query:
        StorageQuery)
        ensures
            query == (StorageQuery {
                state_number: self.spec_state_number(),
                contract_address,
                key,
            }),
    {
        self.state.get_storage_at(contract_address, key)
    }

    /// The question for the nonce of `contract_address`.
    pub fn get_nonce_at(&self, contract_address: ContractAddress) -> (query: NonceQuery)
        ensures
            query == (NonceQuery { state_number: self.spec_state_number(), contract_address }),
    {
        self.state.get_nonce_at(contract_address)
    }

    /// The question for the hash of the class that is deployed at
    /// `contract_address`.
    pub fn get_class_hash_at(&self, contract_address: ContractAddress) -> (query: ClassHashQuery)
        ensures
            query == (ClassHashQuery { state_number: self.spec_state_number(), contract_address }),
    {
        self.state.get_class_hash_at(contract_address)
    }

    /// The lookup of the body of a class: it starts at the question for the
    /// block at which the class was declared, and [`class_found`](Self::class_found)
    /// takes it on from each answer of the store.
    pub fn get_compiled_contract_class(&self, class_hash: &ClassHash) -> (lookup: ClassLookup)
        ensures
            lookup == start(*class_hash),
    {
        start(*class_hash)
    }

    /// The step of a lookup that asked `asked` and was handed `found`: the
    /// next question, or the result.
    pub fn class_found(&self, asked: ClassQuery, found: ClassFound) -> (lookup: ClassLookup)
        ensures
            lookup == step(self.spec_state_number(), asked, found),
    {
        step(self.state.state_number(), asked, found)
    }

    /// The hash of the compiled body of a class: the reader does not offer
    /// this read, whatever the class.
    pub fn get_compiled_class_hash(&self, class_hash: ClassHash) -> (result: StateResult<
        CompiledClassHash,
    >)
        ensures
            result == Err::<CompiledClassHash, StateError>(StateError::Unsupported),
    {
        self.state.get_compiled_class_hash(class_hash)
    }
}

} // verus!
