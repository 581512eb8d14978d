//! The readers over a store that is held in memory.

use cairo_lang_starknet::casm_contract_class::CasmContractClass;
use papyrus_reader::class::ClassBody;
use papyrus_reader::class_lookup::{ClassFound, ClassLookup, ClassQuery, DeprecatedClassQuery};
use papyrus_reader::errors::{StateError, StateResult, StorageResult};
use papyrus_reader::reader::{PapyrusExecutableClassReader, PapyrusReader, PapyrusStateReader};
use papyrus_reader::types::{
    BlockNumber, ClassHash, CompiledClassHash, ContractAddress, Nonce, StarkFelt, StateNumber,
    StorageKey,
};
use starknet_api::deprecated_contract_class::ContractClass as DeprecatedContractClass;
use std::cell::RefCell;

/// A store in memory. Each record carries the block at which it was made, and
/// a read as of a state sees the records of the blocks up to it.
#[derive(Default)]
struct Store {
    storage: Vec<(u64, ContractAddress, StorageKey, StarkFelt)>,
    nonces: Vec<(u64, ContractAddress, Nonce)>,
    deployed: Vec<(u64, ContractAddress, ClassHash)>,
    declared: Vec<(u64, ClassHash)>,
    casms: Vec<(ClassHash, CasmContractClass)>,
    deprecated: Vec<(u64, ClassHash, DeprecatedContractClass)>,
    /// Where set, the lookups of this kind fail with the text.
    broken: Option<(Kind, String)>,
    /// The class questions in the order in which they came.
    asked: RefCell<Vec<ClassQuery>>,
}

#[derive(Clone, Copy, PartialEq)]
enum Kind {
    Storage,
    Nonce,
    ClassHash,
    Declaration,
    Casm,
    Deprecated,
}

impl Store {
    fn fails(&self, kind: Kind) -> Option<String> {
        match &self.broken {
            Some((broken, text)) if *broken == kind => Some(text.clone()),
            _ => None,
        }
    }

    fn storage_at(
        &self,
        state_number: StateNumber,
        address: ContractAddress,
        key: StorageKey,
    ) -> StorageResult<StarkFelt> {
        if let Some(text) = self.fails(Kind::Storage) {
            return Err(text);
        }
        let mut last: Option<(u64, StarkFelt)> = None;
        for (block, a, k, value) in &self.storage {
            if *a == address && *k == key && *block <= state_number.0.0 {
                if last.map_or(true, |(seen, _)| seen <= *block) {
                    last = Some((*block, *value));
                }
            }
        }
        Ok(last.map(|(_, value)| value))
    }

    fn nonce_at(&self, state_number: StateNumber, address: ContractAddress) -> StorageResult<Nonce> {
        if let Some(text) = self.fails(Kind::Nonce) {
            return Err(text);
        }
        let mut last: Option<(u64, Nonce)> = None;
        for (block, a, nonce) in &self.nonces {
            if *a == address && *block <= state_number.0.0 {
                if last.map_or(true, |(seen, _)| seen <= *block) {
                    last = Some((*block, *nonce));
                }
            }
        }
        Ok(last.map(|(_, nonce)| nonce))
    }

    fn class_hash_at(
        &self,
        state_number: StateNumber,
        address: ContractAddress,
    ) -> StorageResult<ClassHash> {
        if let Some(text) = self.fails(Kind::ClassHash) {
            return Err(text);
        }
        let mut last: Option<(u64, ClassHash)> = None;
        for (block, a, class_hash) in &self.deployed {
            if *a == address && *block <= state_number.0.0 {
                if last.map_or(true, |(seen, _)| seen <= *block) {
                    last = Some((*block, *class_hash));
                }
            }
        }
        Ok(last.map(|(_, class_hash)| class_hash))
    }

    fn class_found(&self, query: ClassQuery) -> ClassFound {
        self.asked.borrow_mut().push(query);
        match query {
            ClassQuery::DefinitionBlockNumber { class_hash } => {
                ClassFound::DefinitionBlockNumber(match self.fails(Kind::Declaration) {
                    Some(text) => Err(text),
                    None => Ok(self
                        .declared
                        .iter()
                        .find(|(_, declared)| *declared == class_hash)
                        .map(|(block, _)| BlockNumber(*block))),
                })
            }
            ClassQuery::Casm { class_hash } => ClassFound::Casm(match self.fails(Kind::Casm) {
                Some(text) => Err(text),
                None => Ok(self
                    .casms
                    .iter()
                    .find(|(of, _)| *of == class_hash)
                    .map(|(_, casm)| casm.clone())),
            }),
            ClassQuery::DeprecatedClassDefinitionAt { state_number, class_hash } => {
                ClassFound::DeprecatedClassDefinitionAt(match self.fails(Kind::Deprecated) {
                    Some(text) => Err(text),
                    None => Ok(self
                        .deprecated
                        .iter()
                        .find(|(block, of, _)| *of == class_hash && *block <= state_number.0.0)
                        .map(|(_, _, class)| class.clone())),
                })
            }
        }
    }
}

type Reader<'a> = PapyrusReader<&'a Store, &'a Store>;

fn reader_at(store: &Store, block: u64) -> Reader<'_> {
    PapyrusReader::new(store, PapyrusStateReader::new(store, BlockNumber(block)))
}

/// Runs a lookup to its end: every question goes to the store, and what the
/// store found goes back to the reader.
fn run(mut lookup: ClassLookup, store: &Store, step: impl Fn(ClassQuery, ClassFound) -> ClassLookup)
    -> StateResult<ClassBody>
{
    loop {
        match lookup {
            ClassLookup::Done(result) => return result,
            ClassLookup::Ask(query) => lookup = step(query, store.class_found(query)),
        }
    }
}

fn class_of(reader: &Reader<'_>, store: &Store, class_hash: ClassHash) -> StateResult<ClassBody> {
    run(reader.get_compiled_contract_class(&class_hash), store, |asked, found| {
        reader.class_found(asked, found)
    })
}

fn felt(value: u128) -> StarkFelt {
    StarkFelt::from_u128(value)
}

fn address(value: u128) -> ContractAddress {
    ContractAddress(felt(value))
}

fn key(value: u128) -> StorageKey {
    StorageKey(felt(value))
}

fn hash(value: u128) -> ClassHash {
    ClassHash(felt(value))
}

fn casm(version: &str) -> CasmContractClass {
    CasmContractClass { compiler_version: version.to_string(), ..Default::default() }
}

fn deprecated(marked: bool) -> DeprecatedContractClass {
    DeprecatedContractClass {
        abi: if marked { Some(Vec::new()) } else { None },
        ..Default::default()
    }
}

#[test]
fn storage_is_read_as_of_the_block_of_the_reader() {
    let store = Store {
        storage: vec![(10, address(1), key(1), felt(7)), (20, address(1), key(1), felt(9))],
        ..Default::default()
    };
    let at_15 = reader_at(&store, 15);
    let query = at_15.get_storage_at(address(1), key(1));
    assert_eq!(query.state_number, StateNumber(BlockNumber(15)));
    let found = store.storage_at(query.state_number, query.contract_address, query.key);
    assert_eq!(query.answered(found), Ok(felt(7)));

    let at_25 = reader_at(&store, 25);
    let query = at_25.get_storage_at(address(1), key(1));
    let found = store.storage_at(query.state_number, query.contract_address, query.key);
    assert_eq!(query.answered(found), Ok(felt(9)));
}

#[test]
fn storage_before_the_first_write_is_zero() {
    let store = Store {
        storage: vec![(10, address(1), key(1), felt(7))],
        ..Default::default()
    };
    let reader = reader_at(&store, 9);
    let query = reader.get_storage_at(address(1), key(1));
    let found = store.storage_at(query.state_number, query.contract_address, query.key);
    assert_eq!(found, Ok(None));
    assert_eq!(query.answered(found), Ok(StarkFelt { high: 0, low: 0 }));
}

#[test]
fn storage_of_an_address_never_written_to_is_zero() {
    let store = Store::default();
    let reader = PapyrusStateReader::new(&store, BlockNumber(3));
    let query = reader.get_storage_at(address(77), key(5));
    assert_eq!(query.contract_address, address(77));
    assert_eq!(query.key, key(5));
    let found = store.storage_at(query.state_number, query.contract_address, query.key);
    assert_eq!(query.answered(found), Ok(StarkFelt::zero()));
}

#[test]
fn storage_value_is_handed_on_whole() {
    let reader = PapyrusStateReader::new((), BlockNumber(0));
    let value = StarkFelt { high: 0x0123_4567_89ab_cdef, low: u128::MAX };
    assert_eq!(reader.get_storage_at(address(1), key(2)).answered(Ok(Some(value))), Ok(value));
}

#[test]
fn storage_failure_carries_the_text_of_the_store() {
    let store = Store {
        storage: vec![(1, address(1), key(1), felt(7))],
        broken: Some((Kind::Storage, "page 12 is torn".to_string())),
        ..Default::default()
    };
    let reader = reader_at(&store, 5);
    let query = reader.get_storage_at(address(1), key(1));
    let found = store.storage_at(query.state_number, query.contract_address, query.key);
    assert_eq!(
        query.answered(found),
        Err(StateError::StateReadError("page 12 is torn".to_string()))
    );
}

#[test]
fn nonce_without_a_record_is_the_zero_nonce() {
    let store = Store::default();
    let reader = reader_at(&store, 4);
    let query = reader.get_nonce_at(address(8));
    assert_eq!(query.state_number, StateNumber(BlockNumber(4)));
    assert_eq!(query.contract_address, address(8));
    let found = store.nonce_at(query.state_number, query.contract_address);
    assert_eq!(query.answered(found), Ok(Nonce(StarkFelt { high: 0, low: 0 })));
    assert_eq!(Nonce::default(), Nonce(StarkFelt { high: 0, low: 0 }));
}

#[test]
fn nonce_is_read_as_of_the_block_of_the_reader() {
    let store = Store {
        nonces: vec![(2, address(8), Nonce(felt(1))), (6, address(8), Nonce(felt(2)))],
        ..Default::default()
    };
    for (block, expected) in [(1, 0), (2, 1), (5, 1), (6, 2), (100, 2)] {
        let reader = PapyrusStateReader::new(&store, BlockNumber(block));
        let query = reader.get_nonce_at(address(8));
        let found = store.nonce_at(query.state_number, query.contract_address);
        assert_eq!(query.answered(found), Ok(Nonce(felt(expected))));
    }
}

#[test]
fn nonce_failure_carries_the_text_of_the_store() {
    let store = Store {
        broken: Some((Kind::Nonce, "no such table".to_string())),
        ..Default::default()
    };
    let reader = reader_at(&store, 4);
    let query = reader.get_nonce_at(address(8));
    let found = store.nonce_at(query.state_number, query.contract_address);
    assert_eq!(query.answered(found), Err(StateError::StateReadError("no such table".to_string())));
}

#[test]
fn class_hash_of_an_undeployed_address_is_the_zero_class_hash() {
    let store = Store { deployed: vec![(7, address(3), hash(40))], ..Default::default() };
    let reader = reader_at(&store, 6);
    let query = reader.get_class_hash_at(address(3));
    assert_eq!(query.state_number, StateNumber(BlockNumber(6)));
    let found = store.class_hash_at(query.state_number, query.contract_address);
    assert_eq!(query.answered(found), Ok(ClassHash(StarkFelt { high: 0, low: 0 })));
    assert_eq!(ClassHash::default(), ClassHash(StarkFelt { high: 0, low: 0 }));
}

#[test]
fn class_hash_is_read_as_of_the_block_of_the_reader() {
    let store = Store {
        deployed: vec![(7, address(3), hash(40)), (9, address(3), hash(41))],
        ..Default::default()
    };
    for (block, expected) in [(7, 40), (8, 40), (9, 41)] {
        let reader = PapyrusStateReader::new(&store, BlockNumber(block));
        let query = reader.get_class_hash_at(address(3));
        let found = store.class_hash_at(query.state_number, query.contract_address);
        assert_eq!(query.answered(found), Ok(hash(expected)));
    }
}

#[test]
fn class_hash_failure_carries_the_text_of_the_store() {
    let store = Store {
        broken: Some((Kind::ClassHash, "cursor lost".to_string())),
        ..Default::default()
    };
    let reader = reader_at(&store, 4);
    let query = reader.get_class_hash_at(address(8));
    let found = store.class_hash_at(query.state_number, query.contract_address);
    assert_eq!(query.answered(found), Err(StateError::StateReadError("cursor lost".to_string())));
}

#[test]
fn declared_class_resolves_to_its_compiled_body_from_its_block_on() {
    let store = Store {
        declared: vec![(10, hash(5))],
        casms: vec![(hash(5), casm("2.4.0"))],
        ..Default::default()
    };
    for block in [10, 11, 1000, u64::MAX] {
        let reader = reader_at(&store, block);
        assert_eq!(class_of(&reader, &store, hash(5)), Ok(ClassBody::V1(casm("2.4.0"))));
    }
    for block in [0, 9] {
        let reader = reader_at(&store, block);
        assert_eq!(
            class_of(&reader, &store, hash(5)),
            Err(StateError::UndeclaredClassHash(hash(5)))
        );
    }
}

#[test]
fn class_without_a_declaration_resolves_to_its_deprecated_body() {
    let store = Store {
        deprecated: vec![(4, hash(6), deprecated(true))],
        ..Default::default()
    };
    for block in [4, 5, 90] {
        let reader = reader_at(&store, block);
        assert_eq!(class_of(&reader, &store, hash(6)), Ok(ClassBody::V0(deprecated(true))));
    }
    let reader = reader_at(&store, 3);
    assert_eq!(class_of(&reader, &store, hash(6)), Err(StateError::UndeclaredClassHash(hash(6))));
}

#[test]
fn class_that_is_nowhere_is_undeclared() {
    let store = Store::default();
    let reader = reader_at(&store, 50);
    assert_eq!(class_of(&reader, &store, hash(1)), Err(StateError::UndeclaredClassHash(hash(1))));
}

#[test]
fn declared_class_without_a_compiled_body_is_an_inconsistent_store() {
    let store = Store {
        declared: vec![(10, hash(5))],
        deprecated: vec![(0, hash(5), deprecated(true))],
        ..Default::default()
    };
    let reader = reader_at(&store, 10);
    assert_eq!(class_of(&reader, &store, hash(5)), Err(StateError::InconsistentStore(hash(5))));
    // Before the declaration the store is in order for the reader: it falls
    // back to the older generation.
    let reader = reader_at(&store, 9);
    assert_eq!(class_of(&reader, &store, hash(5)), Ok(ClassBody::V0(deprecated(true))));
}

#[test]
fn declared_class_is_preferred_to_a_deprecated_body() {
    let store = Store {
        declared: vec![(10, hash(5))],
        casms: vec![(hash(5), casm("2.4.0"))],
        deprecated: vec![(0, hash(5), deprecated(false))],
        ..Default::default()
    };
    let reader = reader_at(&store, 12);
    assert_eq!(class_of(&reader, &store, hash(5)), Ok(ClassBody::V1(casm("2.4.0"))));
    assert_eq!(
        *store.asked.borrow(),
        vec![
            ClassQuery::DefinitionBlockNumber { class_hash: hash(5) },
            ClassQuery::Casm { class_hash: hash(5) },
        ]
    );
}

#[test]
fn undeclared_class_is_asked_for_as_of_the_block_of_the_reader() {
    let store = Store { declared: vec![(10, hash(5))], ..Default::default() };
    let reader = reader_at(&store, 7);
    assert_eq!(class_of(&reader, &store, hash(5)), Err(StateError::UndeclaredClassHash(hash(5))));
    assert_eq!(
        *store.asked.borrow(),
        vec![
            ClassQuery::DefinitionBlockNumber { class_hash: hash(5) },
            ClassQuery::DeprecatedClassDefinitionAt {
                state_number: StateNumber(BlockNumber(7)),
                class_hash: hash(5),
            },
        ]
    );
}

#[test]
fn repeated_reads_return_the_same() {
    let store = Store {
        storage: vec![(10, address(1), key(1), felt(7))],
        declared: vec![(10, hash(5))],
        casms: vec![(hash(5), casm("2.4.0"))],
        ..Default::default()
    };
    let mut reader = reader_at(&store, 15);
    let first = class_of(&reader, &store, hash(5));
    let second = class_of(&reader, &store, hash(5));
    assert_eq!(first, second);
    assert_eq!(first, Ok(ClassBody::V1(casm("2.4.0"))));
    let one = reader.get_storage_at(address(1), key(1));
    let _ = reader.state_reader();
    let other = reader.get_storage_at(address(1), key(1));
    assert_eq!(one, other);
    assert_eq!(reader.state_number(), StateNumber(BlockNumber(15)));
}

#[test]
fn readers_across_a_declaration_disagree() {
    let store = Store {
        declared: vec![(20, hash(5))],
        casms: vec![(hash(5), casm("2.4.0"))],
        ..Default::default()
    };
    let before = reader_at(&store, 19);
    let after = reader_at(&store, 20);
    assert_eq!(class_of(&before, &store, hash(5)), Err(StateError::UndeclaredClassHash(hash(5))));
    assert_eq!(class_of(&after, &store, hash(5)), Ok(ClassBody::V1(casm("2.4.0"))));
}

#[test]
fn failed_lookup_of_the_declaration_ends_the_lookup() {
    let store = Store {
        declared: vec![(1, hash(5))],
        casms: vec![(hash(5), casm("2.4.0"))],
        broken: Some((Kind::Declaration, "index unreadable".to_string())),
        ..Default::default()
    };
    let reader = reader_at(&store, 15);
    assert_eq!(
        class_of(&reader, &store, hash(5)),
        Err(StateError::StateReadError("index unreadable".to_string()))
    );
    assert_eq!(store.asked.borrow().len(), 1);
}

#[test]
fn failed_lookup_of_the_compiled_body_is_a_read_error() {
    let store = Store {
        declared: vec![(1, hash(5))],
        broken: Some((Kind::Casm, "file truncated".to_string())),
        ..Default::default()
    };
    let reader = reader_at(&store, 15);
    assert_eq!(
        class_of(&reader, &store, hash(5)),
        Err(StateError::StateReadError("file truncated".to_string()))
    );
}

#[test]
fn failed_lookup_of_the_deprecated_body_is_a_read_error() {
    let store = Store {
        broken: Some((Kind::Deprecated, "bad offset".to_string())),
        ..Default::default()
    };
    let reader = reader_at(&store, 15);
    assert_eq!(
        class_of(&reader, &store, hash(5)),
        Err(StateError::StateReadError("bad offset".to_string()))
    );
}

#[test]
fn state_reader_knows_the_older_generation_alone() {
    let store = Store {
        declared: vec![(1, hash(5))],
        casms: vec![(hash(5), casm("2.4.0"))],
        deprecated: vec![(3, hash(6), deprecated(true))],
        ..Default::default()
    };
    let reader = PapyrusStateReader::new(&store, BlockNumber(8));
    let of = |class_hash: ClassHash| {
        let query = reader.get_compiled_contract_class(&class_hash);
        assert_eq!(
            query,
            DeprecatedClassQuery { state_number: StateNumber(BlockNumber(8)), class_hash }
        );
        let found = store.class_found(ClassQuery::DeprecatedClassDefinitionAt {
            state_number: query.state_number,
            class_hash: query.class_hash,
        });
        match found {
            ClassFound::DeprecatedClassDefinitionAt(found) => query.answered(found),
            _ => unreachable!(),
        }
    };
    assert_eq!(of(hash(5)), Err(StateError::UndeclaredClassHash(hash(5))));
    assert_eq!(of(hash(6)), Ok(ClassBody::V0(deprecated(true))));

    let early = PapyrusStateReader::new(&store, BlockNumber(2));
    let query = early.get_compiled_contract_class(&hash(6));
    assert_eq!(query.state_number, StateNumber(BlockNumber(2)));
    assert_eq!(query.answered(Ok(None)), Err(StateError::UndeclaredClassHash(hash(6))));
    assert_eq!(
        query.answered(Err("bad offset".to_string())),
        Err(StateError::StateReadError("bad offset".to_string()))
    );
}

#[test]
fn compiled_class_hash_is_not_offered() {
    let store = Store::default();
    let reader = reader_at(&store, 1);
    assert_eq!(reader.get_compiled_class_hash(hash(1)), Err(StateError::Unsupported));
    let state_reader = PapyrusStateReader::new(&store, BlockNumber(1));
    let result: StateResult<CompiledClassHash> = state_reader.get_compiled_class_hash(hash(2));
    assert_eq!(result, Err(StateError::Unsupported));
}

#[test]
fn readers_hand_out_what_they_were_made_of() {
    let state_reader = PapyrusStateReader::new("records", BlockNumber(42));
    assert_eq!(*state_reader.latest_block(), BlockNumber(42));
    assert_eq!(state_reader.state_number(), StateNumber(BlockNumber(42)));
    assert_eq!(state_reader.reader, "records");

    let class_reader = PapyrusExecutableClassReader::new(17u8);
    assert_eq!(*class_reader.txn(), 17);

    let mut reader = PapyrusReader::new(3.5f64, state_reader);
    assert_eq!(*reader.state_reader(), "records");
    assert_eq!(*reader.contract_classes().txn(), 3.5);
    assert_eq!(reader.state_number(), StateNumber(BlockNumber(42)));
}
