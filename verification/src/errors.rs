//! What a read can end in.

use crate::types::ClassHash;
use vstd::prelude::*;

verus! {

/// Why a read of the state gave no value.
#[derive(Clone, Debug, PartialEq, Eq)]
pub enum StateError {
    /// The store failed for another reason than that nothing was found. The
    /// text is the store's own.
    StateReadError(String),
    /// No body of the class is visible at the state that was read.
    UndeclaredClassHash(ClassHash),
    /// The class is declared at the state that was read, and the store holds
    /// no compiled body of it: the store contradicts itself. A caller stops
    /// on this and does not go on without the class.
    InconsistentStore(ClassHash),
    /// The reader does not offer the read that was asked for.
    Unsupported,
}

/// What the reader hands to the execution engine.
pub type StateResult<T> = Result<T, StateError>;

/// What the store hands to the reader: `Ok(None)` where it holds nothing
/// under what was asked, `Err` with its own text where the lookup failed.
pub type StorageResult<T> = Result<Option<T>, String>;

} // verus!
