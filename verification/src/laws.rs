//! What holds of the readers over every store.

use crate::class::ClassBody;
use crate::errors::StateError;
use crate::lookup::{ClassHashQuery, NonceQuery, StorageQuery};
use crate::reader::PapyrusStateReader;
use crate::storage::Storage;
use crate::types::{
    BlockNumber, ClassHash, ContractAddress, Nonce, StarkFelt, StateNumber, StorageKey,
};
use cairo_lang_starknet::casm_contract_class::CasmContractClass;
use starknet_api::deprecated_contract_class::ContractClass as DeprecatedContractClass;
use vstd::prelude::*;

verus! {

/// A storage slot that was never written to reads as zero, and the read does
/// not fail.
pub proof fn lemma_unwritten_slot_reads_zero(
    storage: Storage,
    state_number: StateNumber,
    contract_address: ContractAddress,
    key: StorageKey,
)
    requires
        (storage.storage_at)((StorageQuery { state_number, contract_address, key })) == Ok::<
            Option<StarkFelt>,
            String,
        >(None),
    ensures
        storage.storage_at(state_number, contract_address, key) == Ok::<StarkFelt, StateError>(
            StarkFelt::spec_zero(),
        ),
{
}

/// A contract of which no nonce is recorded has the zero nonce.
pub proof fn lemma_unrecorded_nonce_is_zero(
    storage: Storage,
    state_number: StateNumber,
    contract_address: ContractAddress,
)
    requires
        (storage.nonce_at)((NonceQuery { state_number, contract_address })) == Ok::<
            Option<Nonce>,
            String,
        >(None),
    ensures
        storage.nonce_at(state_number, contract_address) == Ok::<Nonce, StateError>(
            Nonce(StarkFelt::spec_zero()),
        ),
{
}

/// An address at which nothing is deployed has the zero class hash.
pub proof fn lemma_undeployed_address_has_zero_class_hash(
    storage: Storage,
    state_number: StateNumber,
    contract_address: ContractAddress,
)
    requires
        (storage.class_hash_at)((ClassHashQuery { state_number, contract_address })) == Ok::<
            Option<ClassHash>,
            String,
        >(None),
    ensures
        storage.class_hash_at(state_number, contract_address) == Ok::<ClassHash, StateError>(
            ClassHash(StarkFelt::spec_zero()),
        ),
{
}

/// A lookup of the store that fails is never passed over and never made up
/// for by a zero or by another lookup: the read fails with the text of the
/// store.
pub proof fn lemma_failure_of_the_store_is_handed_on(
    storage: Storage,
    state_number: StateNumber,
    contract_address: ContractAddress,
    key: StorageKey,
    class_hash: ClassHash,
    text: String,
)
    ensures
        (storage.storage_at)((StorageQuery { state_number, contract_address, key })) == Err::<
            Option<StarkFelt>,
            String,
        >(text) ==> storage.storage_at(state_number, contract_address, key) == Err::<
            StarkFelt,
            StateError,
        >(StateError::StateReadError(text)),
        (storage.nonce_at)((NonceQuery { state_number, contract_address })) == Err::<
            Option<Nonce>,
            String,
        >(text) ==> storage.nonce_at(state_number, contract_address) == Err::<Nonce, StateError>(
            StateError::StateReadError(text),
        ),
        (storage.class_hash_at)((ClassHashQuery { state_number, contract_address })) == Err::<
            Option<ClassHash>,
            String,
        >(text) ==> storage.class_hash_at(state_number, contract_address) == Err::<
            ClassHash,
            StateError,
        >(StateError::StateReadError(text)),
        (storage.class_definition_block_number)(class_hash) == Err::<Option<BlockNumber>, String>(
            text,
        ) ==> storage.compiled_contract_class(state_number, class_hash) == Err::<
            ClassBody,
            StateError,
        >(StateError::StateReadError(text)),
        storage.class_is_declared(state_number, class_hash) && (storage.casm)(class_hash) == Err::<
            Option<CasmContractClass>,
            String,
        >(text) ==> storage.compiled_contract_class(state_number, class_hash) == Err::<
            ClassBody,
            StateError,
        >(StateError::StateReadError(text)),
        (storage.class_definition_block_number)(class_hash) is Ok && !storage.class_is_declared(
            state_number,
            class_hash,
        ) && (storage.deprecated_class_definition_at)(state_number, class_hash) == Err::<
            Option<DeprecatedContractClass>,
            String,
        >(text) ==> storage.compiled_contract_class(state_number, class_hash) == Err::<
            ClassBody,
            StateError,
        >(StateError::StateReadError(text)),
{
}

/// A class that was declared at a block, with a compiled body and no body of
/// the older generation: from that block on the reader returns the compiled
/// body, before it the class is undeclared.
pub proof fn lemma_declared_class_is_seen_from_its_block_on(
    storage: Storage,
    state_number: StateNumber,
    class_hash: ClassHash,
    declared_at: BlockNumber,
    casm: CasmContractClass,
)
    requires
        (storage.class_definition_block_number)(class_hash) == Ok::<Option<BlockNumber>, String>(
            Some(declared_at),
        ),
        (storage.casm)(class_hash) == Ok::<Option<CasmContractClass>, String>(Some(casm)),
        (storage.deprecated_class_definition_at)(state_number, class_hash) == Ok::<
            Option<DeprecatedContractClass>,
            String,
        >(None),
    ensures
        declared_at.0 <= state_number.0.0 ==> storage.compiled_contract_class(
            state_number,
            class_hash,
        ) == Ok::<ClassBody, StateError>(ClassBody::V1(casm)),
        state_number.0.0 < declared_at.0 ==> storage.compiled_contract_class(
            state_number,
            class_hash,
        ) == Err::<ClassBody, StateError>(StateError::UndeclaredClassHash(class_hash)),
{
}

/// A declaration after the state of the reader counts for nothing: the
/// reader returns what it would return over a store that is the same but for
/// knowing no declaration of the class.
pub proof fn lemma_later_declaration_is_not_seen(
    storage: Storage,
    without: Storage,
    state_number: StateNumber,
    class_hash: ClassHash,
    declared_at: BlockNumber,
)
    requires
        (storage.class_definition_block_number)(class_hash) == Ok::<Option<BlockNumber>, String>(
            Some(declared_at),
        ),
        state_number.0.0 < declared_at.0,
        (without.class_definition_block_number)(class_hash) == Ok::<Option<BlockNumber>, String>(
            None,
        ),
        without.casm == storage.casm,
        without.deprecated_class_definition_at == storage.deprecated_class_definition_at,
    ensures
        storage.compiled_contract_class(state_number, class_hash)
            == without.compiled_contract_class(state_number, class_hash),
{
}

/// A class without a declaration: the reader returns the body of the older
/// generation at every state at which the store has one, and at every other
/// state the class is undeclared.
pub proof fn lemma_class_without_declaration_is_the_deprecated_one(
    storage: Storage,
    state_number: StateNumber,
    class_hash: ClassHash,
)
    requires
        (storage.class_definition_block_number)(class_hash) == Ok::<Option<BlockNumber>, String>(
            None,
        ),
    ensures
        forall|deprecated: DeprecatedContractClass|
            (storage.deprecated_class_definition_at)(state_number, class_hash) == Ok::<
                Option<DeprecatedContractClass>,
                String,
            >(Some(deprecated)) ==> storage.compiled_contract_class(state_number, class_hash)
                == Ok::<ClassBody, StateError>(ClassBody::V0(deprecated)),
        (storage.deprecated_class_definition_at)(state_number, class_hash) == Ok::<
            Option<DeprecatedContractClass>,
            String,
        >(None) ==> storage.compiled_contract_class(state_number, class_hash) == Err::<
            ClassBody,
            StateError,
        >(StateError::UndeclaredClassHash(class_hash)),
{
}

/// A class that is declared for the reader and has no compiled body: the
/// reader reports that the store contradicts itself. It returns no body, not
/// even where the store holds one of the older generation.
pub proof fn lemma_declared_class_without_body_is_inconsistent(
    storage: Storage,
    state_number: StateNumber,
    class_hash: ClassHash,
    declared_at: BlockNumber,
)
    requires
        (storage.class_definition_block_number)(class_hash) == Ok::<Option<BlockNumber>, String>(
            Some(declared_at),
        ),
        declared_at.0 <= state_number.0.0,
        (storage.casm)(class_hash) == Ok::<Option<CasmContractClass>, String>(None),
    ensures
        storage.compiled_contract_class(state_number, class_hash) == Err::<ClassBody, StateError>(
            StateError::InconsistentStore(class_hash),
        ),
{
}

/// A body that the reader returns is one that the store holds: the compiled
/// body of the class, or its body of the older generation as of the state of
/// the reader. The reader makes up none.
pub proof fn lemma_returned_body_is_one_of_the_store(
    storage: Storage,
    state_number: StateNumber,
    class_hash: ClassHash,
)
    ensures
        match storage.compiled_contract_class(state_number, class_hash) {
            Ok(ClassBody::V1(casm)) => storage.class_is_declared(state_number, class_hash) && (
            storage.casm)(class_hash) == Ok::<Option<CasmContractClass>, String>(Some(casm)),
            Ok(ClassBody::V0(deprecated)) => !storage.class_is_declared(state_number, class_hash)
                && (storage.deprecated_class_definition_at)(state_number, class_hash) == Ok::<
                Option<DeprecatedContractClass>,
                String,
            >(Some(deprecated)),
            Err(_) => true,
        },
{
}

/// Asking again gives the same. What a reader returns depends on the block
/// that it is bound to, on what it is asked and on what the store finds, and
/// on nothing else: two readers bound to one block agree on every read over
/// one store, whatever handles they hold.
pub proof fn lemma_readers_of_one_block_agree<R1, R2>(
    storage: Storage,
    one: PapyrusStateReader<R1>,
    other: PapyrusStateReader<R2>,
    contract_address: ContractAddress,
    key: StorageKey,
    class_hash: ClassHash,
)
    requires
        one.spec_latest_block() == other.spec_latest_block(),
    ensures
        storage.storage_at(one.spec_state_number(), contract_address, key) == storage.storage_at(
            other.spec_state_number(),
            contract_address,
            key,
        ),
        storage.nonce_at(one.spec_state_number(), contract_address) == storage.nonce_at(
            other.spec_state_number(),
            contract_address,
        ),
        storage.class_hash_at(one.spec_state_number(), contract_address) == storage.class_hash_at(
            other.spec_state_number(),
            contract_address,
        ),
        storage.compiled_contract_class(one.spec_state_number(), class_hash)
            == storage.compiled_contract_class(other.spec_state_number(), class_hash),
        storage.deprecated_contract_class(one.spec_state_number(), class_hash)
            == storage.deprecated_contract_class(other.spec_state_number(), class_hash),
{
}

/// A reader sees nothing of what was declared after its block. Of two
/// readers over one store, one bound to a block before the declaration of a
/// class and one bound to a block from the declaration on, the first reports
/// the class as undeclared and the second returns its compiled body.
pub proof fn lemma_readers_across_a_declaration_disagree<R1, R2>(
    storage: Storage,
    before: PapyrusStateReader<R1>,
    after: PapyrusStateReader<R2>,
    class_hash: ClassHash,
    declared_at: BlockNumber,
    casm: CasmContractClass,
)
    requires
        before.spec_latest_block().0 < declared_at.0 <= after.spec_latest_block().0,
        (storage.class_definition_block_number)(class_hash) == Ok::<Option<BlockNumber>, String>(
            Some(declared_at),
        ),
        (storage.casm)(class_hash) == Ok::<Option<CasmContractClass>, String>(Some(casm)),
        (storage.deprecated_class_definition_at)(before.spec_state_number(), class_hash) == Ok::<
            Option<DeprecatedContractClass>,
            String,
        >(None),
    ensures
        storage.compiled_contract_class(before.spec_state_number(), class_hash) == Err::<
            ClassBody,
            StateError,
        >(StateError::UndeclaredClassHash(class_hash)),
        storage.compiled_contract_class(after.spec_state_number(), class_hash) == Ok::<
            ClassBody,
            StateError,
        >(ClassBody::V1(casm)),
        storage.compiled_contract_class(before.spec_state_number(), class_hash)
            != storage.compiled_contract_class(after.spec_state_number(), class_hash),
{
}

} // verus!
