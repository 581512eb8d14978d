//! The reads that take one question to the store: a storage slot, a nonce,
//! the class hash at an address.
//!
//! An address that never received a write or a deployment is an ordinary
//! sight, so that the store holds nothing is no failure here: the result is
//! the zero of its kind. That the store failed is one, and its text is handed
//! on as it came.

use crate::errors::{StateError, StateResult, StorageResult};
use crate::types::{ClassHash, ContractAddress, Nonce, StarkFelt, StateNumber, StorageKey};
use vstd::prelude::*;

verus! {

/// The result of a read for which the store found `found`, where `absent`
/// stands for a value that the store does not hold.
pub open spec fn spec_found_or<T>(found: StorageResult<T>, absent: T) -> StateResult<T> {
    match found {
        Err(text) => Err(StateError::StateReadError(text)),
        Ok(None) => Ok(absent),
        Ok(Some(value)) => Ok(value),
    }
}

/// The result of a read for which the store found `found`.
#[verifier::when_used_as_spec(spec_found_or)]
pub fn found_or<T>(found: StorageResult<T>, absent: T) -> (result: StateResult<T>)
    ensures
        result == spec_found_or(found, absent),
{
    match found {
        Err(text) => Err(StateError::StateReadError(text)),
        Ok(None) => Ok(absent),
        Ok(Some(value)) => Ok(value),
    }
}

/// The question for the value under `key` in the storage of
/// `contract_address`, as of `state_number`.
#[derive(Clone, Copy, Debug, PartialEq, Eq, Structural)]
pub struct StorageQuery {
    pub state_number: StateNumber,
    pub contract_address: ContractAddress,
    pub key: StorageKey,
}

impl StorageQuery {
    /// The value of the slot: what the store found, zero for a slot that was
    /// never written to.
    pub open spec fn spec_answered(self, found: StorageResult<StarkFelt>) -> StateResult<
        StarkFelt,
    > {
        spec_found_or(found, StarkFelt::spec_zero())
    }

    /// The value of the slot, from what the store found for this question.
    #[verifier::when_used_as_spec(spec_answered)]
    pub fn answered(self, found: StorageResult<StarkFelt>) -> (result: StateResult<StarkFelt>)
        ensures
            result == self.spec_answered(found),
    {
        found_or(found, StarkFelt::zero())
    }
}

/// The question for the nonce of `contract_address`, as of `state_number`.
#[derive(Clone, Copy, Debug, PartialEq, Eq, Structural)]
pub struct NonceQuery {
    pub state_number: StateNumber,
    pub contract_address: ContractAddress,
}

impl NonceQuery {
    /// The nonce: what the store found, the zero nonce for a contract of
    /// which none is recorded. Whether there is a contract at the address
    /// makes no difference.
    pub open spec fn spec_answered(self, found: StorageResult<Nonce>) -> StateResult<Nonce> {
        spec_found_or(found, Nonce(StarkFelt::spec_zero()))
    }

    /// The nonce, from what the store found for this question.
    #[verifier::when_used_as_spec(spec_answered)]
    pub fn answered(self, found: StorageResult<Nonce>) -> (result: StateResult<Nonce>)
        ensures
            result == self.spec_answered(found),
    {
        found_or(found, Nonce::default())
    }
}

/// The question for the hash of the class that is deployed at
/// `contract_address`, as of `state_number`.
#[derive(Clone, Copy, Debug, PartialEq, Eq, Structural)]
pub struct ClassHashQuery {
    pub state_number: StateNumber,
    pub contract_address: ContractAddress,
}

impl ClassHashQuery {
    /// The class hash: what the store found, the zero class hash for an
    /// address at which nothing is deployed.
    pub open spec fn spec_answered(self, found: StorageResult<ClassHash>) -> StateResult<
        ClassHash,
    > {
        spec_found_or(found, ClassHash(StarkFelt::spec_zero()))
    }

    /// The class hash, from what the store found for this question.
    #[verifier::when_used_as_spec(spec_answered)]
    pub fn answered(self, found: StorageResult<ClassHash>) -> (result: StateResult<ClassHash>)
        ensures
            result == self.spec_answered(found),
    {
        found_or(found, ClassHash::default())
    }
}

} // verus!
