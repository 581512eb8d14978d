//! Class bodies.

use vstd::prelude::*;

verus! {

/// `starknet_api::deprecated_contract_class::ContractClass`: the body of a
/// class of the older generation, as the store holds it. The reader hands it
/// on and never looks inside, and nothing is claimed of what it holds.
#[verifier::external_type_specification]
#[verifier::external_body]
pub struct ExDeprecatedContractClass(starknet_api::deprecated_contract_class::ContractClass);

/// `cairo_lang_starknet::casm_contract_class::CasmContractClass`: the compiled
/// body of a class of the newer generation, as the store holds it. The reader
/// hands it on and never looks inside, and nothing is claimed of what it
/// holds.
#[verifier::external_type_specification]
#[verifier::external_body]
pub struct ExCasmContractClass(cairo_lang_starknet::casm_contract_class::CasmContractClass);

/// The body of a class, of one generation or the other. The engine runs the
/// two in different ways, so the generation stays in the open.
#[derive(Debug, PartialEq, Eq)]
pub enum ClassBody {
    V0(starknet_api::deprecated_contract_class::ContractClass),
    V1(cairo_lang_starknet::casm_contract_class::CasmContractClass),
}

} // verus!
