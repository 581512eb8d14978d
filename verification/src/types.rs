//! The values that the reader handles.

use vstd::prelude::*;

verus! {

/// A field element, as its upper and lower 128 bits.
#[derive(Clone, Copy, Debug, PartialEq, Eq, Hash, Structural)]
pub struct StarkFelt {
    pub high: u128,
    pub low: u128,
}

impl StarkFelt {
    /// The zero element.
    pub open spec fn spec_zero() -> StarkFelt {
        StarkFelt { high: 0, low: 0 }
    }

    /// The zero element.
    #[verifier::when_used_as_spec(spec_zero)]
    pub fn zero() -> (felt: StarkFelt)
        ensures
            felt == StarkFelt::spec_zero(),
    {
        StarkFelt { high: 0, low: 0 }
    }

    /// The element with the value `low`.
    pub fn from_u128(low: u128) -> (felt: StarkFelt)
        ensures
            felt == (StarkFelt { high: 0, low }),
    {
        StarkFelt { high: 0, low }
    }
}

impl Default for StarkFelt {
    fn default() -> (felt: StarkFelt)
        ensures
            felt == StarkFelt::spec_zero(),
    {
        StarkFelt::zero()
    }
}

/// The address of a contract.
#[derive(Clone, Copy, Debug, PartialEq, Eq, Hash, Structural)]
pub struct ContractAddress(pub StarkFelt);

/// A key in the storage of a contract.
#[derive(Clone, Copy, Debug, PartialEq, Eq, Hash, Structural)]
pub struct StorageKey(pub StarkFelt);

/// The nonce of a contract.
#[derive(Clone, Copy, Debug, PartialEq, Eq, Hash, Structural)]
pub struct Nonce(pub StarkFelt);

impl Default for Nonce {
    /// The nonce of a contract that has none recorded yet.
    fn default() -> (nonce: Nonce)
        ensures
            nonce == Nonce(StarkFelt::spec_zero()),
    {
        Nonce(StarkFelt::zero())
    }
}

/// The hash of a class.
#[derive(Clone, Copy, Debug, PartialEq, Eq, Hash, Structural)]
pub struct ClassHash(pub StarkFelt);

impl Default for ClassHash {
    /// The class hash of an address at which nothing is deployed.
    fn default() -> (class_hash: ClassHash)
        ensures
            class_hash == ClassHash(StarkFelt::spec_zero()),
    {
        ClassHash(StarkFelt::zero())
    }
}

/// The hash of the compiled body of a class.
#[derive(Clone, Copy, Debug, PartialEq, Eq, Hash, Structural)]
pub struct CompiledClassHash(pub StarkFelt);

/// The number of a block.
#[derive(Clone, Copy, Debug, PartialEq, Eq, Hash, Structural)]
pub struct BlockNumber(pub u64);

/// The number of a state. Reads at a state number see what was recorded up
/// to it and nothing recorded later.
#[derive(Clone, Copy, Debug, PartialEq, Eq, Hash, Structural)]
pub struct StateNumber(pub BlockNumber);

} // verus!
