//! The store, as far as a reader can tell: what it finds for each question.
//!
//! Nothing here runs. A `Storage` stands for a store in the statements about
//! the readers: what a reader returns is what its steps make of the store's
//! answers, whichever store gives them.

use crate::class::ClassBody;
use crate::class_lookup::{
    spec_compiled_class, spec_deprecated_class, spec_class_is_declared, spec_start, spec_step,
    ClassFound, ClassLookup, ClassQuery, DeprecatedClassQuery,
};
use crate::errors::{StateError, StateResult, StorageResult};
use crate::lookup::{ClassHashQuery, NonceQuery, StorageQuery};
use crate::types::{
    BlockNumber, ClassHash, ContractAddress, Nonce, StarkFelt, StateNumber, StorageKey,
};
use cairo_lang_starknet::casm_contract_class::CasmContractClass;
use starknet_api::deprecated_contract_class::ContractClass as DeprecatedContractClass;
use vstd::prelude::*;

verus! {

/// What a store finds for each question that a reader can ask.
pub struct Storage {
    /// The value of a storage slot as of a state.
    pub storage_at: spec_fn(StorageQuery) -> StorageResult<StarkFelt>,
    /// The nonce of a contract as of a state.
    pub nonce_at: spec_fn(NonceQuery) -> StorageResult<Nonce>,
    /// The hash of the class deployed at an address as of a state.
    pub class_hash_at: spec_fn(ClassHashQuery) -> StorageResult<ClassHash>,
    /// The block at which a class was declared, whatever the state.
    pub class_definition_block_number: spec_fn(ClassHash) -> StorageResult<BlockNumber>,
    /// The compiled body of a class, whatever the state.
    pub casm: spec_fn(ClassHash) -> StorageResult<CasmContractClass>,
    /// The body of the older generation of a class as of a state.
    pub deprecated_class_definition_at: spec_fn(StateNumber, ClassHash) -> StorageResult<
        DeprecatedContractClass,
    >,
}

impl Storage {
    /// What the store finds for a question about a class.
    pub open spec fn class_found(self, query: ClassQuery) -> ClassFound {
        match query {
            ClassQuery::DefinitionBlockNumber { class_hash } => ClassFound::DefinitionBlockNumber(
                (self.class_definition_block_number)(class_hash),
            ),
            ClassQuery::Casm { class_hash } => ClassFound::Casm((self.casm)(class_hash)),
            ClassQuery::DeprecatedClassDefinitionAt { state_number, class_hash } =>
                ClassFound::DeprecatedClassDefinitionAt(
                (self.deprecated_class_definition_at)(state_number, class_hash),
            ),
        }
    }

    /// Whether the class is declared for a reader at `state_number`: the
    /// store knows the block of its declaration, and that block is not after
    /// the state.
    pub open spec fn class_is_declared(self, state_number: StateNumber, class_hash: ClassHash) -> bool {
        (self.class_definition_block_number)(class_hash) matches Ok(definition_block_number)
            && spec_class_is_declared(definition_block_number, state_number)
    }

    /// What a reader at `state_number` returns for a storage slot.
    pub open spec fn storage_at(
        self,
        state_number: StateNumber,
        contract_address: ContractAddress,
        key: StorageKey,
    ) -> StateResult<StarkFelt> {
        let query = StorageQuery { state_number, contract_address, key };
        query.spec_answered((self.storage_at)(query))
    }

    /// What a reader at `state_number` returns for the nonce of a contract.
    pub open spec fn nonce_at(
        self,
        state_number: StateNumber,
        contract_address: ContractAddress,
    ) -> StateResult<Nonce> {
        let query = NonceQuery { state_number, contract_address };
        query.spec_answered((self.nonce_at)(query))
    }

    /// What a reader at `state_number` returns for the class hash at an
    /// address.
    pub open spec fn class_hash_at(
        self,
        state_number: StateNumber,
        contract_address: ContractAddress,
    ) -> StateResult<ClassHash> {
        let query = ClassHashQuery { state_number, contract_address };
        query.spec_answered((self.class_hash_at)(query))
    }

    /// Where a lookup of a reader at `state_number` stands after at most
    /// `steps` more questions to the store.
    pub open spec fn class_lookup_after(
        self,
        state_number: StateNumber,
        lookup: ClassLookup,
        steps: nat,
    ) -> ClassLookup
        decreases steps,
    {
        match lookup {
            ClassLookup::Done(_) => lookup,
            ClassLookup::Ask(asked) => if steps == 0 {
                lookup
            } else {
                self.class_lookup_after(
                    state_number,
                    spec_step(state_number, asked, self.class_found(asked)),
                    (steps - 1) as nat,
                )
            },
        }
    }

    /// The body of a class for a reader at `state_number`: the compiled body
    /// where the class is declared for the reader, else the body of the older
    /// generation as of the reader's state.
    pub open spec fn compiled_contract_class(
        self,
        state_number: StateNumber,
        class_hash: ClassHash,
    ) -> StateResult<ClassBody> {
        match (self.class_definition_block_number)(class_hash) {
            Err(text) => Err(StateError::StateReadError(text)),
            Ok(definition_block_number) => if spec_class_is_declared(
                definition_block_number,
                state_number,
            ) {
                spec_compiled_class(class_hash, (self.casm)(class_hash))
            } else {
                spec_deprecated_class(
                    class_hash,
                    (self.deprecated_class_definition_at)(state_number, class_hash),
                )
            },
        }
    }

    /// The body of a class for a reader at `state_number` that knows the
    /// older generation alone.
    pub open spec fn deprecated_contract_class(
        self,
        state_number: StateNumber,
        class_hash: ClassHash,
    ) -> StateResult<ClassBody> {
        let query = DeprecatedClassQuery { state_number, class_hash };
        query.spec_answered((self.deprecated_class_definition_at)(state_number, class_hash))
    }
}

/// A lookup that starts at the question for the declaration is done after
/// two questions to the store at most, and its result is the body of the
/// class for the reader.
pub proof fn lemma_class_lookup_takes_two_questions(
    storage: Storage,
    state_number: StateNumber,
    class_hash: ClassHash,
)
    ensures
        storage.class_lookup_after(state_number, spec_start(class_hash), 2) == ClassLookup::Done(
            storage.compiled_contract_class(state_number, class_hash),
        ),
{
    reveal_with_fuel(Storage::class_lookup_after, 3);
}

} // verus!
