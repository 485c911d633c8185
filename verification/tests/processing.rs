use full_optimistic::{
    BodyVerifyStep1, BodyVerifyStep2, Call, Chain, Config, Inner, NonZeroU32, OptimisticFullSync,
    Platform, ProcessOne, ProcessOneShared, RequestSuccessBlock, StorageDiff, StorageGet,
    SyncConfig, ToProcess, TreeConfig,
};
use std::collections::VecDeque;

/// A platform whose components are names and numbers. A runtime is the code that it comes from.
struct Names;

impl Platform for Names {
    type ChainInformation = &'static str;
    type BabeGenesisConfiguration = &'static str;
    type Tree = &'static str;
    type Sync = Vec<u32>;
    type Source = u32;
    type SourceId = usize;
    type RequestId = u32;
    type RequestFail = &'static str;
    type Report = &'static str;
    type WasmVm = Vec<u8>;
    type CompileError = &'static str;
    type RuntimeRequired = u32;
    type StorageGet = u32;
    type StoragePrefixKeys = u32;
    type StorageNextKey = u32;
    type Verified = u32;
}

fn bytes(s: &str) -> Vec<u8> {
    s.as_bytes().to_vec()
}

fn chain(tree: &'static str) -> Chain<Names> {
    Chain { tree, best_block_number: 12, best_block_hash: [7; 32], finalized_block_number: 5 }
}

fn block(n: u8) -> RequestSuccessBlock {
    RequestSuccessBlock {
        scale_encoded_header: vec![n],
        scale_encoded_justification: None,
        scale_encoded_extrinsics: vec![vec![n, 1], vec![n, 2]],
    }
}

fn diff(changes: &[(&str, Option<&str>)]) -> StorageDiff {
    let mut diff = StorageDiff::new();
    for (key, value) in changes {
        diff.insert(bytes(key), value.map(bytes));
    }
    diff
}

fn shared(
    blocks: Vec<u8>,
    changes: &[(&str, Option<&str>)],
    cache: Option<&str>,
) -> ProcessOneShared<Names> {
    ProcessOneShared {
        to_process: ToProcess {
            blocks: blocks.into_iter().map(block).collect::<VecDeque<_>>(),
            report: "report",
        },
        best_to_finalized_storage_diff: diff(changes),
        runtime_code_cache: cache.map(bytes),
    }
}

fn call(process: ProcessOne<Names>) -> Call<Names> {
    match process {
        ProcessOne::Call(call) => call,
        _ => panic!("a call was expected"),
    }
}

fn asked_value(process: ProcessOne<Names>) -> StorageGet<Names> {
    match process {
        ProcessOne::FinalizedStorageGet(get) => get,
        _ => panic!("a question for a storage value was expected"),
    }
}

fn finished(process: ProcessOne<Names>) -> OptimisticFullSync<Names> {
    match process {
        ProcessOne::Finished { sync } => sync,
        _ => panic!("the end was expected"),
    }
}

fn tree_of(sync: &OptimisticFullSync<Names>) -> &'static str {
    sync.as_chain_information(|tree: &&'static str| *tree)
}

fn sources_of(sync: &mut OptimisticFullSync<Names>) -> Vec<u32> {
    sync.next_request_action(|sources: &mut Vec<u32>| Some(sources.clone())).unwrap()
}

fn sorted(mut keys: Vec<Vec<u8>>) -> Vec<Vec<u8>> {
    keys.sort();
    keys
}

fn new_machine() -> OptimisticFullSync<Names> {
    let config: Config<Names> = Config {
        chain_information: "information",
        babe_genesis_config: "babe",
        sources_capacity: 3,
        blocks_capacity: 100,
        blocks_request_granularity: NonZeroU32::new(128).unwrap(),
        download_ahead_blocks: 250,
        source_selection_randomness_seed: 99,
    };
    OptimisticFullSync::new(
        config,
        |config: TreeConfig<Names>| {
            assert_eq!(config.chain_information, "information");
            assert_eq!(config.babe_genesis_config, "babe");
            assert_eq!(config.blocks_capacity, 100);
            chain("tree")
        },
        |config: SyncConfig| {
            assert_eq!(config.best_block_number, 12);
            assert_eq!(config.sources_capacity, 3);
            assert_eq!(config.blocks_request_granularity.get(), 128);
            assert_eq!(config.download_ahead_blocks, 250);
            assert_eq!(config.source_selection_randomness_seed, 99);
            vec![1, 2]
        },
    )
}

#[test]
fn zero_is_not_a_granularity() {
    assert!(NonZeroU32::new(0).is_none());
    assert_eq!(NonZeroU32::new(1).unwrap().get(), 1);
    assert_eq!(NonZeroU32::new(u32::MAX).unwrap().get(), u32::MAX);
}

#[test]
fn new_machine_is_made_of_tree_and_scheduler() {
    let mut sync = new_machine();
    assert_eq!(sync.best_block_number(), 12);
    assert_eq!(sync.best_block_hash(), [7; 32]);
    assert_eq!(tree_of(&sync), "tree");
    assert_eq!(sources_of(&mut sync), vec![1, 2]);
}

#[test]
fn sources_come_and_go() {
    let mut sync = new_machine();
    let id = sync.add_source(30, |sources: &mut Vec<u32>, source| {
        sources.push(source);
        sources.len() - 1
    });
    assert_eq!(id, 2);
    assert_eq!(sources_of(&mut sync), vec![1, 2, 30]);
    let removed = sync.remove_source(1, |sources: &mut Vec<u32>, id| sources.remove(id));
    assert_eq!(removed, 2);
    assert_eq!(sources_of(&mut sync), vec![1, 30]);
    assert_eq!(sync.best_block_number(), 12);
    assert_eq!(tree_of(&sync), "tree");
}

#[test]
fn requests_are_started() {
    let mut sync = new_machine();
    let action = sync.next_request_action(|sources: &mut Vec<u32>| sources.pop());
    assert_eq!(action, Some(2));
    let action = sync.next_request_action(|sources: &mut Vec<u32>| sources.pop());
    assert_eq!(action, Some(1));
    let action = sync.next_request_action(|sources: &mut Vec<u32>| sources.pop());
    assert_eq!(action, None);
    assert_eq!(sync.best_block_hash(), [7; 32]);
}

#[test]
fn requests_are_finished() {
    let mut sync = new_machine();
    let headers = sync.finish_request(
        70,
        Ok(vec![block(1), block(2)]),
        |sources: &mut Vec<u32>, id, outcome| {
            sources.push(id);
            outcome.unwrap().into_iter().map(|b| b.scale_encoded_header).collect::<Vec<_>>()
        },
    );
    assert_eq!(headers, vec![vec![1], vec![2]]);
    let failure = sync.finish_request(
        71,
        Err("timeout"),
        |sources: &mut Vec<u32>, id, outcome: Result<Vec<RequestSuccessBlock>, &'static str>| {
            sources.push(id);
            outcome.err()
        },
    );
    assert_eq!(failure, Some("timeout"));
    assert_eq!(sources_of(&mut sync), vec![1, 2, 70, 71]);
    assert_eq!(tree_of(&sync), "tree");
}

#[test]
fn nothing_to_process_gives_machine_back() {
    match call(new_machine().process_one()) {
        Call::TakeBlocks { sync, state } => {
            assert_eq!(sync, vec![1, 2]);
            assert!(state.runtime_code_cache.is_none());
            let mut back = finished(state.blocks_taken(Err(vec![4])));
            assert_eq!(sources_of(&mut back), vec![4]);
            assert_eq!(back.best_block_number(), 12);
            assert_eq!(tree_of(&back), "tree");
        }
        _ => panic!("the scheduler should be asked for blocks"),
    }
}

#[test]
fn room_is_made_for_taken_blocks() {
    match call(new_machine().process_one()) {
        Call::TakeBlocks { state, .. } => {
            let to_process = ToProcess {
                blocks: vec![block(1), block(2), block(3)].into(),
                report: "report",
            };
            match call(state.blocks_taken(Ok(to_process))) {
                Call::Reserve { chain, additional, shared } => {
                    assert_eq!(chain.tree, "tree");
                    assert_eq!(additional, 3);
                    assert_eq!(shared.to_process.blocks.len(), 3);
                    assert_eq!(shared.to_process.report, "report");
                }
                _ => panic!("memory should be reserved"),
            }
        }
        _ => panic!("the scheduler should be asked for blocks"),
    }
}

#[test]
fn first_block_is_verified_next() {
    match call(ProcessOne::from(
        Inner::Start(chain("tree")),
        shared(vec![8, 9], &[("a", Some("1"))], Some("code")),
    )) {
        Call::VerifyBody { chain, scale_encoded_header, scale_encoded_extrinsics, shared } => {
            assert_eq!(chain.tree, "tree");
            assert_eq!(scale_encoded_header, vec![8]);
            assert_eq!(scale_encoded_extrinsics, vec![vec![8, 1], vec![8, 2]]);
            assert_eq!(shared.to_process.blocks.len(), 1);
            assert_eq!(shared.to_process.blocks[0].scale_encoded_header, vec![9]);
            assert_eq!(
                shared.best_to_finalized_storage_diff.get(b"a"),
                Some(&Some(bytes("1")))
            );
            assert_eq!(shared.runtime_code_cache, Some(bytes("code")));
        }
        _ => panic!("a block should be verified"),
    }
}

#[test]
fn end_of_chunk_reports_best_block() {
    match call(ProcessOne::from(
        Inner::Start(chain("tree")),
        shared(vec![], &[("a", None)], Some("code")),
    )) {
        Call::UpdateBlockHeight { report, height, state } => {
            assert_eq!(report, "report");
            assert_eq!(height, 12);
            assert_eq!(state.best_to_finalized_storage_diff.get(b"a"), Some(&None));
            assert_eq!(state.runtime_code_cache, Some(bytes("code")));
            let mut back = finished(state.finish(vec![6]));
            assert_eq!(tree_of(&back), "tree");
            assert_eq!(sources_of(&mut back), vec![6]);
        }
        _ => panic!("the end should be reported"),
    }
}

#[test]
fn invalid_header_keeps_storage_and_forgets_runtime() {
    match call(ProcessOne::from(
        Inner::Step1(BodyVerifyStep1::InvalidHeader(chain("tree"))),
        shared(vec![1], &[("a", Some("1"))], Some("code")),
    )) {
        Call::ResetToFinalized { report, height, state } => {
            assert_eq!(report, "report");
            assert_eq!(height, 5);
            assert_eq!(state.chain.tree, "tree");
            assert_eq!(state.chain.best_block_number, 12);
            assert_eq!(
                state.best_to_finalized_storage_diff.get(b"a"),
                Some(&Some(bytes("1")))
            );
            assert_eq!(state.runtime_code_cache, None);
        }
        _ => panic!("the refusal should be reported"),
    }
}

#[test]
fn duplicate_keeps_storage_and_forgets_runtime() {
    match call(ProcessOne::from(
        Inner::Step1(BodyVerifyStep1::Duplicate(chain("tree"))),
        shared(vec![1], &[("a", Some("1"))], Some("code")),
    )) {
        Call::ResetToFinalized { report, height, state } => {
            assert_eq!(report, "report");
            assert_eq!(height, 5);
            assert_eq!(state.chain.best_block_number, 12);
            assert_eq!(
                state.best_to_finalized_storage_diff.get(b"a"),
                Some(&Some(bytes("1")))
            );
            assert_eq!(state.runtime_code_cache, None);
        }
        _ => panic!("the refusal should be reported"),
    }
}

#[test]
fn bad_parent_keeps_storage_and_runtime() {
    match call(ProcessOne::from(
        Inner::Step1(BodyVerifyStep1::BadParent(chain("tree"))),
        shared(vec![1], &[("a", Some("1"))], Some("code")),
    )) {
        Call::ResetToFinalized { report, height, state } => {
            assert_eq!(report, "report");
            assert_eq!(height, 5);
            assert_eq!(
                state.best_to_finalized_storage_diff.get(b"a"),
                Some(&Some(bytes("1")))
            );
            assert_eq!(state.runtime_code_cache, Some(bytes("code")));
        }
        _ => panic!("the refusal should be reported"),
    }
}

#[test]
fn cached_runtime_is_taken_first() {
    match call(ProcessOne::from(
        Inner::Step1(BodyVerifyStep1::ParentRuntimeRequired(4)),
        shared(vec![1], &[(":code", Some("other"))], Some("cached")),
    )) {
        Call::Resume { req, runtime, shared } => {
            assert_eq!(req, 4);
            assert_eq!(runtime, bytes("cached"));
            assert_eq!(shared.runtime_code_cache, None);
            assert_eq!(shared.to_process.blocks.len(), 1);
        }
        _ => panic!("the cached runtime should be used"),
    }
}

#[test]
fn code_of_diff_is_taken_second() {
    match call(ProcessOne::from(
        Inner::Step1(BodyVerifyStep1::ParentRuntimeRequired(4)),
        shared(vec![1], &[(":code", Some("changed"))], None),
    )) {
        Call::Compile { req, code, .. } => {
            assert_eq!(req, 4);
            assert_eq!(code, bytes("changed"));
        }
        _ => panic!("the code of the diff should be used"),
    }
}

#[test]
fn code_of_finalized_block_is_asked_for_last() {
    let get = asked_value(ProcessOne::from(
        Inner::Step1(BodyVerifyStep1::ParentRuntimeRequired(4)),
        shared(vec![1], &[("a", Some("1"))], None),
    ));
    assert!(get.is_runtime_code());
    assert_eq!(get.key(), vec![bytes(":code")]);
    match call(get.inject_value(Some(b"finalized"))) {
        Call::Compile { req, code, shared } => {
            assert_eq!(req, 4);
            assert_eq!(code, bytes("finalized"));
            assert_eq!(shared.runtime_code_cache, None);
        }
        _ => panic!("the code of the user should be used"),
    }
}

#[test]
fn compiled_runtime_is_handed_on() {
    match call(ProcessOne::compiled(4, Ok(bytes("runtime")), shared(vec![1], &[("a", None)], None)))
    {
        Call::Resume { req, runtime, shared } => {
            assert_eq!(req, 4);
            assert_eq!(runtime, bytes("runtime"));
            assert_eq!(shared.runtime_code_cache, None);
            assert_eq!(shared.to_process.blocks.len(), 1);
            assert!(shared.best_to_finalized_storage_diff.contains_key(b"a"));
        }
        _ => panic!("the runtime should be handed on"),
    }
}

#[test]
fn erased_code_cannot_be_run() {
    let erased = shared(vec![1], &[(":code", None)], None);
    let required = Inner::Step1(BodyVerifyStep1::ParentRuntimeRequired(4));
    assert!(!ProcessOne::can_continue(&required, &erased));
    let cached = shared(vec![1], &[(":code", None)], Some("cached"));
    assert!(ProcessOne::can_continue(&required, &cached));
    let unchanged = shared(vec![1], &[], None);
    assert!(ProcessOne::can_continue(&required, &unchanged));
}

#[test]
fn invalid_block_ends_chunk_and_machine_comes_back() {
    let invalid = Inner::Step2(BodyVerifyStep2::Finished {
        storage_top_trie_changes: diff(&[("a", Some("2")), ("b", Some("3"))]),
        parent_runtime: bytes("runtime"),
        result: Err(chain("tree before the block")),
    });
    let before = shared(vec![1, 2], &[("a", Some("1"))], None);
    assert!(ProcessOne::can_continue(&invalid, &before));
    match call(ProcessOne::from(invalid, before)) {
        Call::ResetToFinalized { report, height, state } => {
            assert_eq!(report, "report");
            assert_eq!(height, 5);
            assert_eq!(
                state.best_to_finalized_storage_diff.get(b"a"),
                Some(&Some(bytes("1")))
            );
            assert_eq!(state.best_to_finalized_storage_diff.get(b"b"), None);
            assert_eq!(state.runtime_code_cache, Some(bytes("runtime")));
            let mut back = finished(state.finish(vec![8]));
            assert_eq!(tree_of(&back), "tree before the block");
            assert_eq!(sources_of(&mut back), vec![8]);
        }
        _ => panic!("the refusal should be reported"),
    }
}

/// A block is inserted, the next one is refused. The changes of the first are still known, and the
/// finalized block is the one it was.
#[test]
fn refused_block_leaves_storage_of_earlier_ones() {
    let rest = match call(ProcessOne::from(
        Inner::Step2(BodyVerifyStep2::Finished {
            storage_top_trie_changes: diff(&[("k", Some("written"))]),
            parent_runtime: bytes("code"),
            result: Ok(1),
        }),
        shared(vec![2, 3], &[], None),
    )) {
        Call::Insert { shared, .. } => shared,
        _ => panic!("the block should be inserted"),
    };
    let mut grown = chain("grown tree");
    grown.best_block_number = 13;
    let (against, rest) = match call(ProcessOne::from(Inner::Start(grown), rest)) {
        Call::VerifyBody { chain, shared, .. } => (chain, shared),
        _ => panic!("the next block should be verified"),
    };
    match call(ProcessOne::from(Inner::Step1(BodyVerifyStep1::Duplicate(against)), rest)) {
        Call::ResetToFinalized { height, state, .. } => {
            assert_eq!(height, 5);
            assert_eq!(state.chain.best_block_number, 13);
            assert_eq!(state.chain.finalized_block_number, 5);
            assert_eq!(
                state.best_to_finalized_storage_diff.get(b"k"),
                Some(&Some(bytes("written")))
            );
            let back = finished(state.finish(vec![]));
            assert_eq!(tree_of(&back), "grown tree");
            assert_eq!(back.best_block_number(), 13);
        }
        _ => panic!("the refusal should be reported"),
    }
}

#[test]
fn verified_block_is_inserted_with_its_changes() {
    let verified = Inner::Step2(BodyVerifyStep2::Finished {
        storage_top_trie_changes: diff(&[("b", None), ("c", Some("3"))]),
        parent_runtime: bytes("runtime"),
        result: Ok(21),
    });
    let before = shared(vec![1], &[("a", Some("1")), ("b", Some("2"))], None);
    assert!(ProcessOne::can_continue(&verified, &before));
    match call(ProcessOne::from(verified, before)) {
        Call::Insert { verified, shared } => {
            assert_eq!(verified, 21);
            let diff = &shared.best_to_finalized_storage_diff;
            assert_eq!(diff.get(b"a"), Some(&Some(bytes("1"))));
            assert_eq!(diff.get(b"b"), Some(&None));
            assert_eq!(diff.get(b"c"), Some(&Some(bytes("3"))));
            assert_eq!(shared.runtime_code_cache, Some(bytes("runtime")));
            assert_eq!(shared.to_process.blocks.len(), 1);
        }
        _ => panic!("the block should be inserted"),
    }
}

#[test]
fn block_that_changes_code_empties_cache() {
    match call(ProcessOne::from(
        Inner::Step2(BodyVerifyStep2::Finished {
            storage_top_trie_changes: diff(&[(":code", Some("new"))]),
            parent_runtime: bytes("old"),
            result: Ok(21),
        }),
        shared(vec![], &[], None),
    )) {
        Call::Insert { shared, .. } => {
            assert_eq!(shared.runtime_code_cache, None);
            // The next block runs with the new code.
            match call(ProcessOne::from(
                Inner::Step1(BodyVerifyStep1::ParentRuntimeRequired(5)),
                shared,
            )) {
                Call::Compile { code, .. } => assert_eq!(code, bytes("new")),
                _ => panic!("the new code should be used"),
            }
        }
        _ => panic!("the block should be inserted"),
    }
}

#[test]
fn value_of_diff_is_handed_on_at_once() {
    match call(ProcessOne::from(
        Inner::Step2(BodyVerifyStep2::StorageGet { req: 9, key: vec![bytes("a"), bytes("b")] }),
        shared(vec![1], &[("ab", Some("value"))], None),
    )) {
        Call::InjectValue { req, value, .. } => {
            assert_eq!(req, 9);
            assert_eq!(value, Some(bytes("value")));
        }
        _ => panic!("the value should be handed on"),
    }
}

#[test]
fn erased_value_is_handed_on_at_once() {
    match call(ProcessOne::from(
        Inner::Step2(BodyVerifyStep2::StorageGet { req: 9, key: vec![bytes("ab")] }),
        shared(vec![1], &[("ab", None)], None),
    )) {
        Call::InjectValue { req, value, .. } => {
            assert_eq!(req, 9);
            assert_eq!(value, None);
        }
        _ => panic!("the value should be handed on"),
    }
}

#[test]
fn unchanged_value_is_asked_for() {
    let pieces = vec![bytes("a"), bytes(""), bytes("b")];
    for answer in [None, Some(&b"finalized"[..])].iter() {
        let get = asked_value(ProcessOne::from(
            Inner::Step2(BodyVerifyStep2::StorageGet { req: 9, key: pieces.clone() }),
            shared(vec![1], &[("a", Some("1"))], None),
        ));
        assert!(!get.is_runtime_code());
        assert_eq!(get.key(), pieces);
        match call(get.inject_value(*answer)) {
            Call::InjectValue { req, value, shared } => {
                assert_eq!(req, 9);
                assert_eq!(value, answer.map(|v| v.to_vec()));
                assert!(shared.best_to_finalized_storage_diff.contains_key(b"a"));
            }
            _ => panic!("the value should be handed on"),
        }
    }
}

#[test]
fn code_may_be_asked_for_as_a_value() {
    let get = asked_value(ProcessOne::from(
        Inner::Step2(BodyVerifyStep2::StorageGet { req: 9, key: vec![bytes(":code")] }),
        shared(vec![], &[], None),
    ));
    assert!(!get.is_runtime_code());
    match call(get.inject_value(None)) {
        Call::InjectValue { value, .. } => assert_eq!(value, None),
        _ => panic!("the value should be handed on"),
    }
}

#[test]
fn written_value_is_read_by_next_block() {
    let rest = match call(ProcessOne::from(
        Inner::Step2(BodyVerifyStep2::Finished {
            storage_top_trie_changes: diff(&[("k", Some("written"))]),
            parent_runtime: bytes("code"),
            result: Ok(1),
        }),
        shared(vec![], &[("k", Some("older"))], None),
    )) {
        Call::Insert { shared, .. } => shared,
        _ => panic!("the block should be inserted"),
    };
    match call(ProcessOne::from(
        Inner::Step2(BodyVerifyStep2::StorageGet { req: 2, key: vec![bytes("k")] }),
        rest,
    )) {
        Call::InjectValue { value, .. } => assert_eq!(value, Some(bytes("written"))),
        _ => panic!("the value should be handed on"),
    }
}

fn injected_keys(
    changes: &[(&str, Option<&str>)],
    prefix: &str,
    answer: &[&str],
) -> Vec<Vec<u8>> {
    match ProcessOne::from(
        Inner::Step2(BodyVerifyStep2::StoragePrefixKeys { req: 3, prefix: bytes(prefix) }),
        shared(vec![1], changes, None),
    ) {
        ProcessOne::FinalizedStoragePrefixKeys(request) => {
            assert_eq!(request.prefix(), prefix.as_bytes());
            let answer = answer.iter().map(|key| bytes(key)).collect();
            match call(request.inject_keys(answer)) {
                Call::InjectKeys { req, keys, shared } => {
                    assert_eq!(req, 3);
                    assert_eq!(shared.to_process.blocks.len(), 1);
                    sorted(keys)
                }
                _ => panic!("the keys should be handed on"),
            }
        }
        _ => panic!("the keys should be asked for"),
    }
}

#[test]
fn keys_without_changes_are_handed_on() {
    assert_eq!(injected_keys(&[], "p", &["pb", "pa"]), vec![bytes("pa"), bytes("pb")]);
    assert_eq!(injected_keys(&[], "p", &[]), Vec::<Vec<u8>>::new());
}

#[test]
fn repeated_key_is_handed_on_once() {
    assert_eq!(injected_keys(&[], "p", &["pa", "pa", "pa"]), vec![bytes("pa")]);
}

#[test]
fn changes_below_prefix_are_made_to_keys() {
    let changes = [
        ("o", Some("before")),
        ("p", Some("prefix itself")),
        ("pa", None),
        ("pc", Some("new")),
        ("pd", None),
        ("q", Some("after")),
    ];
    assert_eq!(
        injected_keys(&changes, "p", &["pa", "pb"]),
        vec![bytes("p"), bytes("pb"), bytes("pc")]
    );
}

#[test]
fn changes_beside_prefix_are_not_made_to_keys() {
    let changes = [("a", None), ("z", Some("1")), ("pp", Some("2"))];
    assert_eq!(
        injected_keys(&changes, "p", &["a", "p"]),
        vec![bytes("a"), bytes("p"), bytes("pp")]
    );
}

#[test]
fn empty_prefix_covers_all_changes() {
    let changes = [("a", None), ("z", Some("1"))];
    assert_eq!(injected_keys(&changes, "", &["a", "b"]), vec![bytes("b"), bytes("z")]);
}

#[test]
fn next_key_is_asked_for_and_handed_on() {
    for answer in [None, Some(&b"next"[..])].iter() {
        match ProcessOne::from(
            Inner::Step2(BodyVerifyStep2::StorageNextKey { req: 6, key: bytes("from") }),
            shared(vec![1], &[("g", Some("1"))], None),
        ) {
            ProcessOne::FinalizedStorageNextKey(request) => {
                assert_eq!(request.key(), b"from");
                match call(request.inject_key(*answer)) {
                    Call::InjectKey { req, key, shared } => {
                        assert_eq!(req, 6);
                        assert_eq!(key, answer.map(|key| key.to_vec()));
                        assert!(shared.best_to_finalized_storage_diff.contains_key(b"g"));
                    }
                    _ => panic!("the key should be handed on"),
                }
            }
            _ => panic!("the key should be asked for"),
        }
    }
}

/// Processes a chunk of three blocks, each of which reads a value and writes it back with a letter
/// added.
#[test]
fn chunk_is_processed_in_order() {
    let mut process = match call(new_machine().process_one()) {
        Call::TakeBlocks { state, .. } => state.blocks_taken(Ok(ToProcess {
            blocks: vec![block(1), block(2), block(3)].into(),
            report: "report",
        })),
        _ => panic!("the scheduler should be asked for blocks"),
    };
    let mut headers: Vec<Vec<u8>> = Vec::new();
    let mut questions: Vec<Vec<u8>> = Vec::new();
    let mut compiled: Vec<Vec<u8>> = Vec::new();
    let mut runtime: Vec<u8> = Vec::new();
    let mut height: u64 = 12;
    let sync = loop {
        process = match process {
            ProcessOne::Finished { sync } => break sync,
            ProcessOne::FinalizedStorageGet(get) => {
                questions.push(get.key().concat());
                if get.is_runtime_code() {
                    get.inject_value(Some(b"code"))
                } else {
                    get.inject_value(Some(b"x"))
                }
            }
            ProcessOne::Call(Call::Reserve { chain, shared, .. }) => {
                ProcessOne::from(Inner::Start(chain), shared)
            }
            ProcessOne::Call(Call::VerifyBody { scale_encoded_header, shared, .. }) => {
                headers.push(scale_encoded_header);
                ProcessOne::from(Inner::Step1(BodyVerifyStep1::ParentRuntimeRequired(0)), shared)
            }
            ProcessOne::Call(Call::Compile { req, code, shared }) => {
                assert_eq!(shared.runtime_code_cache, None);
                compiled.push(code.clone());
                ProcessOne::compiled(req, Ok(code), shared)
            }
            ProcessOne::Call(Call::Resume { runtime: given, shared, .. }) => {
                assert_eq!(shared.runtime_code_cache, None);
                runtime = given;
                ProcessOne::from(
                    Inner::Step2(BodyVerifyStep2::StorageGet { req: 0, key: vec![bytes("k")] }),
                    shared,
                )
            }
            ProcessOne::Call(Call::InjectValue { value, shared, .. }) => {
                let mut value = value.unwrap();
                value.push(b'y');
                let mut changes = StorageDiff::new();
                changes.insert(bytes("k"), Some(value));
                ProcessOne::from(
                    Inner::Step2(BodyVerifyStep2::Finished {
                        storage_top_trie_changes: changes,
                        parent_runtime: runtime.clone(),
                        result: Ok(0),
                    }),
                    shared,
                )
            }
            ProcessOne::Call(Call::Insert { shared, .. }) => {
                height += 1;
                let mut grown = chain("grown tree");
                grown.best_block_number = height;
                ProcessOne::from(Inner::Start(grown), shared)
            }
            ProcessOne::Call(Call::UpdateBlockHeight { height, state, .. }) => {
                assert_eq!(height, 15);
                assert_eq!(
                    state.best_to_finalized_storage_diff.get(b"k"),
                    Some(&Some(bytes("xyyy")))
                );
                state.finish(vec![])
            }
            _ => panic!("nothing else should be needed"),
        };
    };
    assert_eq!(headers, vec![vec![1], vec![2], vec![3]]);
    assert_eq!(questions, vec![bytes(":code"), bytes("k")]);
    assert_eq!(compiled, vec![bytes("code")]);
    assert_eq!(sync.best_block_number(), 15);
    assert_eq!(tree_of(&sync), "grown tree");
}
