//! A reader of contract state as of one block.
//!
//! A reader is bound to a block when it is made and answers, for that block
//! and no later one: what a storage slot holds, what a contract's nonce is,
//! which class is deployed at an address, and which class body stands behind
//! a class hash. The store itself is not part of this crate. The reader says
//! what is to be looked up and turns what the store found into the result
//! that the execution engine gets.

pub mod class;
pub mod class_lookup;
pub mod errors;
pub mod laws;
pub mod lookup;
pub mod reader;
pub mod storage;
pub mod types;
