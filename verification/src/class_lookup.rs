//! Which body stands behind a class hash.
//!
//! Classes of the newer generation are recorded twice over: the block at
//! which the class was declared, and its compiled body. Classes of the older
//! generation have one record, their body, which the store hands out by
//! state. A class hash is looked up in the newer records first. Only where
//! they know of no declaration that the state can see, the older record is
//! asked.
//!
//! The lookup takes two questions to the store, and the second depends on
//! the answer to the first. It is therefore written as steps: each step
//! takes the question that was asked and what the store found, and gives
//! the next question or the result.

use crate::class::ClassBody;
use crate::errors::{StateError, StateResult, StorageResult};
use crate::types::{BlockNumber, ClassHash, StateNumber};
use cairo_lang_starknet::casm_contract_class::CasmContractClass;
use starknet_api::deprecated_contract_class::ContractClass as DeprecatedContractClass;
use vstd::prelude::*;

verus! {

/// A question to the store about a class.
#[derive(Clone, Copy, Debug, PartialEq, Eq, Structural)]
pub enum ClassQuery {
    /// At which block was the class declared? The answer is the same at
    /// every state: it is the reader that holds it against its own state.
    DefinitionBlockNumber { class_hash: ClassHash },
    /// The compiled body of the class.
    Casm { class_hash: ClassHash },
    /// The body of the older generation that is recorded for the class as of
    /// `state_number`.
    DeprecatedClassDefinitionAt { state_number: StateNumber, class_hash: ClassHash },
}

/// What the store found for a [`ClassQuery`], one variant for each question.
#[derive(Debug, PartialEq, Eq)]
pub enum ClassFound {
    DefinitionBlockNumber(StorageResult<BlockNumber>),
    Casm(StorageResult<CasmContractClass>),
    DeprecatedClassDefinitionAt(StorageResult<DeprecatedContractClass>),
}

/// Where a lookup stands: at a question that the store is to answer, or at
/// its result.
#[derive(Debug, PartialEq, Eq)]
pub enum ClassLookup {
    Ask(ClassQuery),
    Done(StateResult<ClassBody>),
}

/// Whether a class is declared for a reader at `state_number`, given the
/// block at which the store has it declared, if at any. A class declared
/// after the state is not declared for that reader.
pub open spec fn spec_class_is_declared(
    definition_block_number: Option<BlockNumber>,
    state_number: StateNumber,
) -> bool {
    definition_block_number matches Some(block_number) && block_number.0 <= state_number.0.0
}

/// Whether a class is declared for a reader at `state_number`.
#[verifier::when_used_as_spec(spec_class_is_declared)]
pub fn class_is_declared(
    definition_block_number: Option<BlockNumber>,
    state_number: StateNumber,
) -> (declared: bool)
    ensures
        declared == spec_class_is_declared(definition_block_number, state_number),
{
    match definition_block_number {
        Some(block_number) => block_number.0 <= state_number.0.0,
        None => false,
    }
}

/// The step after the store was asked for the block of the declaration. A
/// failed lookup ends the whole. A declared class is looked for among the
/// compiled bodies, any other among the bodies of the older generation as of
/// `state_number`.
pub open spec fn spec_after_definition_block_number(
    state_number: StateNumber,
    class_hash: ClassHash,
    found: StorageResult<BlockNumber>,
) -> ClassLookup {
    match found {
        Err(text) => ClassLookup::Done(Err(StateError::StateReadError(text))),
        Ok(definition_block_number) => if spec_class_is_declared(
            definition_block_number,
            state_number,
        ) {
            ClassLookup::Ask(ClassQuery::Casm { class_hash })
        } else {
            ClassLookup::Ask(ClassQuery::DeprecatedClassDefinitionAt { state_number, class_hash })
        },
    }
}

/// The step after the store was asked for the block of the declaration.
#[verifier::when_used_as_spec(spec_after_definition_block_number)]
pub fn after_definition_block_number(
    state_number: StateNumber,
    class_hash: ClassHash,
    found: StorageResult<BlockNumber>,
) -> (next: ClassLookup)
    ensures
        next == spec_after_definition_block_number(state_number, class_hash, found),
{
    match found {
        Err(text) => ClassLookup::Done(Err(StateError::StateReadError(text))),
        Ok(definition_block_number) => {
            if class_is_declared(definition_block_number, state_number) {
                ClassLookup::Ask(ClassQuery::Casm { class_hash })
            } else {
                ClassLookup::Ask(
                    ClassQuery::DeprecatedClassDefinitionAt { state_number, class_hash },
                )
            }
        },
    }
}

/// The result for a class that is declared, from what the store found among
/// the compiled bodies. That it found none contradicts the declaration, and
/// is told apart from a class that is not declared.
pub open spec fn spec_compiled_class(
    class_hash: ClassHash,
    found: StorageResult<CasmContractClass>,
) -> StateResult<ClassBody> {
    match found {
        Err(text) => Err(StateError::StateReadError(text)),
        Ok(None) => Err(StateError::InconsistentStore(class_hash)),
        Ok(Some(casm)) => Ok(ClassBody::V1(casm)),
    }
}

/// The result for a class that is declared.
#[verifier::when_used_as_spec(spec_compiled_class)]
pub fn compiled_class(class_hash: ClassHash, found: StorageResult<CasmContractClass>) -> (result:
    StateResult<ClassBody>)
    ensures
        result == spec_compiled_class(class_hash, found),
{
    match found {
        Err(text) => Err(StateError::StateReadError(text)),
        Ok(None) => Err(StateError::InconsistentStore(class_hash)),
        Ok(Some(casm)) => Ok(ClassBody::V1(casm)),
    }
}

/// The result for a class that is not declared, from what the store found
/// among the bodies of the older generation. Where it found none, the class
/// has no body that the state can see.
pub open spec fn spec_deprecated_class(
    class_hash: ClassHash,
    found: StorageResult<DeprecatedContractClass>,
) -> StateResult<ClassBody> {
    match found {
        Err(text) => Err(StateError::StateReadError(text)),
        Ok(None) => Err(StateError::UndeclaredClassHash(class_hash)),
        Ok(Some(deprecated)) => Ok(ClassBody::V0(deprecated)),
    }
}

/// The result for a class that is not declared.
#[verifier::when_used_as_spec(spec_deprecated_class)]
pub fn deprecated_class(
    class_hash: ClassHash,
    found: StorageResult<DeprecatedContractClass>,
) -> (result: StateResult<ClassBody>)
    ensures
        result == spec_deprecated_class(class_hash, found),
{
    match found {
        Err(text) => Err(StateError::StateReadError(text)),
        Ok(None) => Err(StateError::UndeclaredClassHash(class_hash)),
        Ok(Some(deprecated)) => Ok(ClassBody::V0(deprecated)),
    }
}

/// The question of a reader that knows the older generation alone: the body
/// that is recorded for `class_hash` as of `state_number`.
#[derive(Clone, Copy, Debug, PartialEq, Eq, Structural)]
pub struct DeprecatedClassQuery {
    pub state_number: StateNumber,
    pub class_hash: ClassHash,
}

impl DeprecatedClassQuery {
    /// The body of the class: what the store found, and no body where it
    /// found none.
    pub open spec fn spec_answered(
        self,
        found: StorageResult<DeprecatedContractClass>,
    ) -> StateResult<ClassBody> {
        spec_deprecated_class(self.class_hash, found)
    }

    /// The body of the class, from what the store found for this question.
    #[verifier::when_used_as_spec(spec_answered)]
    pub fn answered(self, found: StorageResult<DeprecatedContractClass>) -> (result: StateResult<
        ClassBody,
    >)
        ensures
            result == self.spec_answered(found),
    {
        deprecated_class(self.class_hash, found)
    }
}

/// The first step of a lookup: the question for the block of the
/// declaration.
pub open spec fn spec_start(class_hash: ClassHash) -> ClassLookup {
    ClassLookup::Ask(ClassQuery::DefinitionBlockNumber { class_hash })
}

/// The first step of a lookup.
#[verifier::when_used_as_spec(spec_start)]
pub fn start(class_hash: ClassHash) -> (lookup: ClassLookup)
    ensures
        lookup == spec_start(class_hash),
{
    ClassLookup::Ask(ClassQuery::DefinitionBlockNumber { class_hash })
}

/// The step of a reader at `state_number` that asked `asked` and was handed
/// `found`. What was found for another question than the one that was asked
/// changes nothing: the question stands.
pub open spec fn spec_step(
    state_number: StateNumber,
    asked: ClassQuery,
    found: ClassFound,
) -> ClassLookup {
    match (asked, found) {
        (
            ClassQuery::DefinitionBlockNumber { class_hash },
            ClassFound::DefinitionBlockNumber(found),
        ) => spec_after_definition_block_number(state_number, class_hash, found),
        (ClassQuery::Casm { class_hash }, ClassFound::Casm(found)) => ClassLookup::Done(
            spec_compiled_class(class_hash, found),
        ),
        (
            ClassQuery::DeprecatedClassDefinitionAt { class_hash, .. },
            ClassFound::DeprecatedClassDefinitionAt(found),
        ) => ClassLookup::Done(spec_deprecated_class(class_hash, found)),
        _ => ClassLookup::Ask(asked),
    }
}

/// The step of a reader at `state_number` that asked `asked` and was handed
/// `found`.
#[verifier::when_used_as_spec(spec_step)]
pub fn step(state_number: StateNumber, asked: ClassQuery, found: ClassFound) -> (lookup:
    ClassLookup)
    ensures
        lookup == spec_step(state_number, asked, found),
{
    match (asked, found) {
        (
            ClassQuery::DefinitionBlockNumber { class_hash },
            ClassFound::DefinitionBlockNumber(found),
        ) => after_definition_block_number(state_number, class_hash, found),
        (ClassQuery::Casm { class_hash }, ClassFound::Casm(found)) => ClassLookup::Done(
            compiled_class(class_hash, found),
        ),
        (
            ClassQuery::DeprecatedClassDefinitionAt { class_hash, .. },
            ClassFound::DeprecatedClassDefinitionAt(found),
        ) => ClassLookup::Done(deprecated_class(class_hash, found)),
        (asked, _) => ClassLookup::Ask(asked),
    }
}

} // verus!
