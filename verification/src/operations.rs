//! What the operations of the state machine do, seen from outside.
//!
//! Each law speaks of calls of the executable functions themselves, one or several in a row, and of
//! what goes into them and comes out. `call_ensures(f, arguments, result)` says that `result` came
//! out of a call of `f`, and `call_requires(f, arguments)` that `f` may be called.
use vstd::prelude::*;

use crate::config::{Config, SyncConfig, TreeConfig};
use crate::full_sync::{ChainState, OptimisticFullSync};
use crate::platform::{Chain, Platform};
use crate::process::{
    BodyVerifyStep1, BodyVerifyStep2, Call, Inner, ProcessOne, ProcessOneShared,
    RequestSuccessBlock, StorageGet, StorageNextKey, StoragePrefixKeys, ToProcess,
};

verus! {

/// Between two blocks, if any block is left, the first of those that are left is verified next,
/// against the tree as it is, and the others stay left in their order.
pub proof fn law_block_that_is_left_is_verified<P: Platform>(
    chain: Chain<P>,
    shared: ProcessOneShared<P>,
    process: ProcessOne<P>,
)
    requires
        call_ensures(ProcessOne::<P>::from, (Inner::Start(chain), shared), process),
        shared.to_process.blocks@.len() > 0,
    ensures
        process matches ProcessOne::Call(
            Call::VerifyBody {
                chain: against,
                scale_encoded_header,
                scale_encoded_extrinsics,
                shared: rest,
            },
        ) && {
            let block = shared.to_process.blocks@.first();
            &&& against == chain
            &&& scale_encoded_header == block.scale_encoded_header
            &&& scale_encoded_extrinsics == block.scale_encoded_extrinsics
            &&& shared.to_process.blocks@ == seq![block] + rest.to_process.blocks@
            &&& rest.to_process.report == shared.to_process.report
            &&& rest.best_to_finalized_storage_diff == shared.best_to_finalized_storage_diff
            &&& rest.runtime_code_cache == shared.runtime_code_cache
        },
{
    let blocks = shared.to_process.blocks@;
    assert(blocks =~= seq![blocks.first()] + blocks.drop_first());
}

/// Between two blocks, if none is left, the number of the best block is reported.
pub proof fn law_end_of_chunk_is_reported<P: Platform>(
    chain: Chain<P>,
    shared: ProcessOneShared<P>,
    process: ProcessOne<P>,
)
    requires
        call_ensures(ProcessOne::<P>::from, (Inner::Start(chain), shared), process),
        shared.to_process.blocks@.len() == 0,
    ensures
        process matches ProcessOne::Call(Call::UpdateBlockHeight { report, height, state }) && {
            &&& report == shared.to_process.report
            &&& height == chain.best_block_number
            &&& state.chain == chain
            &&& state.best_to_finalized_storage_diff == shared.best_to_finalized_storage_diff
            &&& state.runtime_code_cache == shared.runtime_code_cache
        },
{
}

/// The scheduler is told to start again only because a block has been refused: for its header, as
/// known already, for its parent, or because it was verified and found invalid.
pub proof fn law_only_refusal_resets<P: Platform>(
    inner: Inner<P>,
    shared: ProcessOneShared<P>,
    process: ProcessOne<P>,
)
    requires
        call_ensures(ProcessOne::<P>::from, (inner, shared), process),
        process matches ProcessOne::Call(call) && call is ResetToFinalized,
    ensures
        (inner matches Inner::Step1(step) && !(step is ParentRuntimeRequired)) || (inner
            matches Inner::Step2(BodyVerifyStep2::Finished { result, .. }) && result is Err),
{
}

/// The end of a chunk is reported only between two blocks, with none left.
pub proof fn law_only_end_of_chunk_updates_height<P: Platform>(
    inner: Inner<P>,
    shared: ProcessOneShared<P>,
    process: ProcessOne<P>,
)
    requires
        call_ensures(ProcessOne::<P>::from, (inner, shared), process),
        process matches ProcessOne::Call(call) && call is UpdateBlockHeight,
    ensures
        inner is Start,
        shared.to_process.blocks@.len() == 0,
{
}

/// A block is verified only between two blocks.
pub proof fn law_only_start_verifies<P: Platform>(
    inner: Inner<P>,
    shared: ProcessOneShared<P>,
    process: ProcessOne<P>,
)
    requires
        call_ensures(ProcessOne::<P>::from, (inner, shared), process),
        process matches ProcessOne::Call(call) && call is VerifyBody,
    ensures
        inner is Start,
        shared.to_process.blocks@.len() > 0,
{
}

/// A block that is refused in the first step of its verification makes the scheduler start again
/// from the finalized block. The state machine comes back with the tree that came with the refusal
/// and with all that it knows of the storage. Of the runtime it knows still what it knew if the
/// parent of the block was missing, and nothing otherwise.
pub proof fn law_refused_block_is_reported<P: Platform>(
    step: BodyVerifyStep1<P>,
    chain: Chain<P>,
    shared: ProcessOneShared<P>,
    process: ProcessOne<P>,
)
    requires
        call_ensures(ProcessOne::<P>::from, (Inner::Step1(step), shared), process),
        step == BodyVerifyStep1::InvalidHeader(chain) || step == BodyVerifyStep1::Duplicate(chain)
            || step == BodyVerifyStep1::BadParent(chain),
    ensures
        process matches ProcessOne::Call(Call::ResetToFinalized { report, height, state }) && {
            &&& report == shared.to_process.report
            &&& height == chain.finalized_block_number
            &&& state.chain == chain
            &&& state.best_to_finalized_storage_diff == shared.best_to_finalized_storage_diff
            &&& step is BadParent ==> state.runtime_code_cache == shared.runtime_code_cache
            &&& !(step is BadParent) ==> state.runtime_code_cache is None
        },
{
}

/// A block that is verified and found invalid makes the scheduler start again from the finalized
/// block. Its changes are dropped, and the runtime that it was verified with is kept.
pub proof fn law_invalid_block_is_reported<P: Platform>(
    step: BodyVerifyStep2<P>,
    chain: Chain<P>,
    shared: ProcessOneShared<P>,
    process: ProcessOne<P>,
)
    requires
        call_ensures(ProcessOne::<P>::from, (Inner::Step2(step), shared), process),
        step matches BodyVerifyStep2::Finished { result, .. } && result
            == Result::<P::Verified, Chain<P>>::Err(chain),
    ensures
        process matches ProcessOne::Call(Call::ResetToFinalized { report, height, state }) && {
            &&& report == shared.to_process.report
            &&& height == chain.finalized_block_number
            &&& state.chain == chain
            &&& state.best_to_finalized_storage_diff == shared.best_to_finalized_storage_diff
            &&& state.runtime_code_cache == Some(step->parent_runtime)
        },
{
}

/// A verification that asks for the runtime of its parent is handed the very one that is in the
/// cache, if there is one, and the cache is empty from then on.
pub proof fn law_cached_runtime_is_reused<P: Platform>(
    required: P::RuntimeRequired,
    cached: P::WasmVm,
    shared: ProcessOneShared<P>,
    process: ProcessOne<P>,
)
    requires
        call_ensures(
            ProcessOne::<P>::from,
            (Inner::Step1(BodyVerifyStep1::ParentRuntimeRequired(required)), shared),
            process,
        ),
        shared.runtime_code_cache == Some(cached),
    ensures
        process matches ProcessOne::Call(Call::Resume { req, runtime, shared: rest }) && {
            &&& req == required
            &&& runtime == cached
            &&& rest.runtime_code_cache is None
            &&& rest.to_process == shared.to_process
            &&& rest.best_to_finalized_storage_diff == shared.best_to_finalized_storage_diff
        },
{
}

/// Without a cached runtime, the code of the best block is compiled if the diff has it, whatever
/// code it is, and the verification is handed what comes of it.
pub proof fn law_changed_code_is_compiled<P: Platform>(
    required: P::RuntimeRequired,
    code: Seq<u8>,
    shared: ProcessOneShared<P>,
    process: ProcessOne<P>,
    runtime: P::WasmVm,
    resumed: ProcessOne<P>,
)
    requires
        call_ensures(
            ProcessOne::<P>::from,
            (Inner::Step1(BodyVerifyStep1::ParentRuntimeRequired(required)), shared),
            process,
        ),
        shared.runtime_code_cache is None,
        shared.best_to_finalized_storage_diff@.contains_pair(
            seq![0x3au8, 0x63u8, 0x6fu8, 0x64u8, 0x65u8],
            Some(code),
        ),
        process matches ProcessOne::Call(Call::Compile { req, shared: rest, .. }) ==> call_ensures(
            ProcessOne::<P>::compiled,
            (req, Ok::<P::WasmVm, P::CompileError>(runtime), rest),
            resumed,
        ),
    ensures
        process matches ProcessOne::Call(Call::Compile { req, code: to_compile, shared: rest }) && {
            &&& req == required
            &&& to_compile@ == code
            &&& rest == shared
        },
        resumed matches ProcessOne::Call(Call::Resume { req, runtime: handed, shared: rest }) && {
            &&& req == required
            &&& handed == runtime
            &&& rest == shared
        },
{
}

/// Without a cached runtime and with unchanged code, the user is asked for the value of `:code`.
/// Whatever code the user answers with is compiled, and the verification is handed what comes of
/// it.
pub proof fn law_code_of_user_is_compiled<P: Platform>(
    required: P::RuntimeRequired,
    shared: ProcessOneShared<P>,
    asked: ProcessOne<P>,
    get: StorageGet<P>,
    key: Vec<Vec<u8>>,
    is_code: bool,
    code: &[u8],
    answered: ProcessOne<P>,
    runtime: P::WasmVm,
    resumed: ProcessOne<P>,
)
    requires
        call_ensures(
            ProcessOne::<P>::from,
            (Inner::Step1(BodyVerifyStep1::ParentRuntimeRequired(required)), shared),
            asked,
        ),
        shared.runtime_code_cache is None,
        !shared.best_to_finalized_storage_diff@.contains_key(
            seq![0x3au8, 0x63u8, 0x6fu8, 0x64u8, 0x65u8],
        ),
        asked is FinalizedStorageGet ==> asked == ProcessOne::FinalizedStorageGet(get),
        call_ensures(StorageGet::<P>::key, (&get,), key),
        call_ensures(StorageGet::<P>::is_runtime_code, (&get,), is_code),
        call_ensures(StorageGet::<P>::inject_value, (get, Some(code)), answered),
        answered matches ProcessOne::Call(Call::Compile { req, shared: rest, .. }) ==> call_ensures(
            ProcessOne::<P>::compiled,
            (req, Ok::<P::WasmVm, P::CompileError>(runtime), rest),
            resumed,
        ),
    ensures
        asked is FinalizedStorageGet,
        is_code,
        key.deep_view() == seq![seq![0x3au8, 0x63u8, 0x6fu8, 0x64u8, 0x65u8]],
        answered matches ProcessOne::Call(Call::Compile { req, code: to_compile, shared: rest }) && {
            &&& req == required
            &&& to_compile@ == code@
            &&& rest == shared
        },
        resumed matches ProcessOne::Call(Call::Resume { req, runtime: handed, shared: rest }) && {
            &&& req == required
            &&& handed == runtime
            &&& rest == shared
        },
{
    assert(code.deep_view() =~= code@);
}

/// A compiled runtime is handed to the verification that waits for it, and what is kept meanwhile
/// stays as it is.
pub proof fn law_compiled_runtime_is_handed_on<P: Platform>(
    required: P::RuntimeRequired,
    compiled: P::WasmVm,
    shared: ProcessOneShared<P>,
    process: ProcessOne<P>,
)
    requires
        call_ensures(
            ProcessOne::<P>::compiled,
            (required, Ok::<P::WasmVm, P::CompileError>(compiled), shared),
            process,
        ),
    ensures
        process matches ProcessOne::Call(Call::Resume { req, runtime, shared: rest }) && {
            &&& req == required
            &&& runtime == compiled
            &&& rest == shared
        },
{
}

/// The runtime comes up only when a verification asks for that of its parent. Code is compiled, and
/// the user is asked for it, only when the cache has no runtime.
pub proof fn law_only_missing_runtime_is_compiled<P: Platform>(
    inner: Inner<P>,
    shared: ProcessOneShared<P>,
    process: ProcessOne<P>,
    is_code: bool,
)
    requires
        call_ensures(ProcessOne::<P>::from, (inner, shared), process),
        process matches ProcessOne::FinalizedStorageGet(get) ==> call_ensures(
            StorageGet::<P>::is_runtime_code,
            (&get,),
            is_code,
        ),
    ensures
        (process matches ProcessOne::Call(call) && (call is Resume || call is Compile)) ==> (inner
            matches Inner::Step1(step) && step is ParentRuntimeRequired),
        (process matches ProcessOne::Call(call) && call is Compile)
            ==> shared.runtime_code_cache is None,
        (process is FinalizedStorageGet && is_code) ==> (inner matches Inner::Step1(step)
            && step is ParentRuntimeRequired) && shared.runtime_code_cache is None,
        (process is FinalizedStorageGet && !is_code) ==> (inner matches Inner::Step2(step)
            && step is StorageGet),
{
}

/// A block whose verification has ended well is inserted. From then on the value of each key is the
/// one that the block has given it, if it has changed it, and is as before otherwise. The runtime
/// that the block was verified with is kept for the next one, unless the block has changed the code.
pub proof fn law_valid_block_is_inserted<P: Platform>(
    step: BodyVerifyStep2<P>,
    valid: P::Verified,
    shared: ProcessOneShared<P>,
    process: ProcessOne<P>,
    key: Seq<u8>,
)
    requires
        call_ensures(ProcessOne::<P>::from, (Inner::Step2(step), shared), process),
        step matches BodyVerifyStep2::Finished { result, .. } && result
            == Result::<P::Verified, Chain<P>>::Ok(valid),
    ensures
        process matches ProcessOne::Call(Call::Insert { verified, shared: rest }) && {
            let before = shared.best_to_finalized_storage_diff@;
            let changes = step->storage_top_trie_changes@;
            let after = rest.best_to_finalized_storage_diff@;
            &&& verified == valid
            &&& rest.to_process == shared.to_process
            &&& after.contains_key(key) == (before.contains_key(key) || changes.contains_key(key))
            &&& changes.contains_key(key) ==> after[key] == changes[key]
            &&& before.contains_key(key) && !changes.contains_key(key) ==> after[key] == before[key]
            &&& !changes.contains_key(seq![0x3au8, 0x63u8, 0x6fu8, 0x64u8, 0x65u8])
                ==> rest.runtime_code_cache == Some(step->parent_runtime)
            &&& changes.contains_key(seq![0x3au8, 0x63u8, 0x6fu8, 0x64u8, 0x65u8])
                ==> rest.runtime_code_cache == shared.runtime_code_cache
        },
{
}

/// A block is inserted only when its verification has ended well.
pub proof fn law_only_valid_block_is_inserted<P: Platform>(
    inner: Inner<P>,
    shared: ProcessOneShared<P>,
    process: ProcessOne<P>,
)
    requires
        call_ensures(ProcessOne::<P>::from, (inner, shared), process),
        process matches ProcessOne::Call(call) && call is Insert,
    ensures
        inner matches Inner::Step2(BodyVerifyStep2::Finished { result, .. }) && result is Ok,
{
}

/// A value that the diff has is handed at once to the verification that asks for it.
pub proof fn law_changed_value_is_handed_on<P: Platform>(
    waiting: P::StorageGet,
    key: Vec<Vec<u8>>,
    value: Option<Seq<u8>>,
    shared: ProcessOneShared<P>,
    process: ProcessOne<P>,
)
    requires
        call_ensures(
            ProcessOne::<P>::from,
            (Inner::Step2(BodyVerifyStep2::StorageGet { req: waiting, key }), shared),
            process,
        ),
        shared.best_to_finalized_storage_diff@.contains_pair(key.deep_view().flatten(), value),
    ensures
        process matches ProcessOne::Call(Call::InjectValue { req, value: handed, shared: rest }) && {
            &&& req == waiting
            &&& handed.deep_view() == value
            &&& rest == shared
        },
{
}

/// The user is asked for a value that the diff does not have, under the key that the verification
/// has named. Whatever the user answers is handed to the verification as it is.
pub proof fn law_value_of_user_is_handed_on<P: Platform>(
    waiting: P::StorageGet,
    key: Vec<Vec<u8>>,
    shared: ProcessOneShared<P>,
    asked: ProcessOne<P>,
    get: StorageGet<P>,
    asked_key: Vec<Vec<u8>>,
    is_code: bool,
    value: Option<&[u8]>,
    answered: ProcessOne<P>,
)
    requires
        call_ensures(
            ProcessOne::<P>::from,
            (Inner::Step2(BodyVerifyStep2::StorageGet { req: waiting, key }), shared),
            asked,
        ),
        !shared.best_to_finalized_storage_diff@.contains_key(key.deep_view().flatten()),
        asked is FinalizedStorageGet ==> asked == ProcessOne::FinalizedStorageGet(get),
        call_ensures(StorageGet::<P>::key, (&get,), asked_key),
        call_ensures(StorageGet::<P>::is_runtime_code, (&get,), is_code),
        call_ensures(StorageGet::<P>::inject_value, (get, value), answered),
    ensures
        asked is FinalizedStorageGet,
        call_requires(StorageGet::<P>::inject_value, (get, value)),
        asked_key.deep_view() == key.deep_view(),
        !is_code,
        answered matches ProcessOne::Call(Call::InjectValue { req, value: handed, shared: rest }) && {
            &&& req == waiting
            &&& handed.deep_view() == value.deep_view()
            &&& rest == shared
        },
{
}

/// The user is asked for the keys below the prefix that a verification has named. The verification
/// is handed each key once: below the prefix, one that the diff has set if it has, none that the diff
/// has erased, and otherwise just those that the user has answered with.
pub proof fn law_keys_of_user_are_handed_on<P: Platform>(
    waiting: P::StoragePrefixKeys,
    prefix: Vec<u8>,
    shared: ProcessOneShared<P>,
    asked: ProcessOne<P>,
    request: StoragePrefixKeys<P>,
    asked_prefix: &[u8],
    answer: Vec<Vec<u8>>,
    answered: ProcessOne<P>,
    key: Seq<u8>,
)
    requires
        call_ensures(
            ProcessOne::<P>::from,
            (Inner::Step2(BodyVerifyStep2::StoragePrefixKeys { req: waiting, prefix }), shared),
            asked,
        ),
        asked is FinalizedStoragePrefixKeys ==> asked == ProcessOne::FinalizedStoragePrefixKeys(
            request,
        ),
        call_ensures(StoragePrefixKeys::<P>::prefix, (&request,), asked_prefix),
        call_ensures(StoragePrefixKeys::<P>::inject_keys, (request, answer), answered),
    ensures
        asked is FinalizedStoragePrefixKeys,
        call_requires(StoragePrefixKeys::<P>::inject_keys, (request, answer)),
        asked_prefix@ == prefix@,
        answered matches ProcessOne::Call(Call::InjectKeys { req, keys, shared: rest }) && {
            let diff = shared.best_to_finalized_storage_diff@;
            let below = prefix@.is_prefix_of(key);
            &&& req == waiting
            &&& rest == shared
            &&& keys.deep_view().no_duplicates()
            &&& below && diff.contains_key(key) && diff[key] is Some
                ==> keys.deep_view().contains(key)
            &&& below && diff.contains_key(key) && diff[key] is None
                ==> !keys.deep_view().contains(key)
            &&& !below || !diff.contains_key(key) ==> keys.deep_view().contains(key)
                == answer.deep_view().contains(key)
        },
{
    if let ProcessOne::Call(Call::InjectKeys { keys, .. }) = answered {
        assert(keys.deep_view().to_set().contains(key) == keys.deep_view().contains(key));
        assert(answer.deep_view().to_set().contains(key) == answer.deep_view().contains(key));
    }
}

/// The user is asked for the key that follows the one that a verification has named, and whatever
/// the user answers is handed to the verification as it is.
pub proof fn law_following_key_of_user_is_handed_on<P: Platform>(
    waiting: P::StorageNextKey,
    key: Vec<u8>,
    shared: ProcessOneShared<P>,
    asked: ProcessOne<P>,
    request: StorageNextKey<P>,
    asked_key: &[u8],
    answer: Option<&[u8]>,
    answered: ProcessOne<P>,
)
    requires
        call_ensures(
            ProcessOne::<P>::from,
            (Inner::Step2(BodyVerifyStep2::StorageNextKey { req: waiting, key }), shared),
            asked,
        ),
        asked is FinalizedStorageNextKey ==> asked == ProcessOne::FinalizedStorageNextKey(request),
        call_ensures(StorageNextKey::<P>::key, (&request,), asked_key),
        call_ensures(StorageNextKey::<P>::inject_key, (request, answer), answered),
    ensures
        asked is FinalizedStorageNextKey,
        call_requires(StorageNextKey::<P>::inject_key, (request, answer)),
        asked_key@ == key@,
        answered matches ProcessOne::Call(Call::InjectKey { req, key: handed, shared: rest }) && {
            &&& req == waiting
            &&& handed.deep_view() == answer.deep_view()
            &&& rest == shared
        },
{
}

/// Values, keys and following keys are handed to a verification by the user's answers only, apart
/// from values that the diff has.
pub proof fn law_only_changed_value_is_handed_on_at_once<P: Platform>(
    inner: Inner<P>,
    shared: ProcessOneShared<P>,
    process: ProcessOne<P>,
)
    requires
        call_ensures(ProcessOne::<P>::from, (inner, shared), process),
    ensures
        !(process is Finished),
        process is FinalizedStoragePrefixKeys ==> (inner matches Inner::Step2(step)
            && step is StoragePrefixKeys),
        process is FinalizedStorageNextKey ==> (inner matches Inner::Step2(step)
            && step is StorageNextKey),
        process matches ProcessOne::Call(call) ==> {
            &&& !(call is TakeBlocks) && !(call is Reserve)
            &&& !(call is InjectKeys) && !(call is InjectKey)
            &&& call is InjectValue ==> (inner matches Inner::Step2(
                BodyVerifyStep2::StorageGet { key, .. },
            ) && shared.best_to_finalized_storage_diff@.contains_key(key.deep_view().flatten()))
        },
{
}

/// An answer of the user to a question for a value leads to a call and never to another question.
pub proof fn law_value_of_user_is_not_asked_for_again<P: Platform>(
    get: StorageGet<P>,
    value: Option<&[u8]>,
    is_code: bool,
    process: ProcessOne<P>,
)
    requires
        call_ensures(StorageGet::<P>::is_runtime_code, (&get,), is_code),
        call_ensures(StorageGet::<P>::inject_value, (get, value), process),
    ensures
        process matches ProcessOne::Call(call) && (call is Compile == is_code) && (call
            is InjectValue == !is_code),
        process matches ProcessOne::Call(Call::Compile { code, .. }) ==> value matches Some(answer)
            && code@ == answer@,
{
    if let Some(answer) = value {
        assert(answer.deep_view() =~= answer@);
    }
}

/// The processing can go on with every outcome, except where a verification waits for the runtime of
/// its parent, no runtime is cached and the diff says that `:code` is erased. Wherever
/// [`ProcessOne::can_continue`] says that it can, it may be driven on.
pub proof fn law_only_erased_code_stops<P: Platform>(
    inner: Inner<P>,
    shared: ProcessOneShared<P>,
    result: bool,
)
    requires
        call_ensures(ProcessOne::<P>::can_continue, (&inner, &shared), result),
    ensures
        !result <==> (inner matches Inner::Step1(step) && step is ParentRuntimeRequired)
            && shared.runtime_code_cache is None
            && shared.best_to_finalized_storage_diff@.contains_pair(
            seq![0x3au8, 0x63u8, 0x6fu8, 0x64u8, 0x65u8],
            None,
        ),
        result ==> call_requires(ProcessOne::<P>::from, (inner, shared)),
        call_requires(ProcessOne::<P>::can_continue, (&inner, &shared)),
{
}

/// A question for a value can be answered with any value, and with none unless it is the code of a
/// runtime. The other answers have no condition, but that the code could be compiled.
pub proof fn law_answers_are_taken<P: Platform>(
    get: StorageGet<P>,
    is_code: bool,
    value: &[u8],
    runtime: P::WasmVm,
    required: P::RuntimeRequired,
    shared: ProcessOneShared<P>,
    state: ChainState<P>,
    blocks: Result<ToProcess<P>, P::Sync>,
    scheduler: P::Sync,
)
    requires
        call_ensures(StorageGet::<P>::is_runtime_code, (&get,), is_code),
    ensures
        call_requires(StorageGet::<P>::inject_value, (get, Some(value))),
        !is_code ==> call_requires(StorageGet::<P>::inject_value, (get, None)),
        call_requires(
            ProcessOne::<P>::compiled,
            (required, Ok::<P::WasmVm, P::CompileError>(runtime), shared),
        ),
        call_requires(ChainState::<P>::blocks_taken, (state, blocks)),
        call_requires(ChainState::<P>::finish, (state, scheduler)),
{
}

/// A state machine can be asked for its best block and told to process blocks at any time, and the
/// scheduler's operations can be used wherever the given function accepts the scheduler.
pub proof fn law_machine_can_be_used<
    'a,
    P: Platform,
    TRegister: FnOnce(&'a mut P::Sync, P::Source) -> P::SourceId,
    TAction,
    TNext: FnOnce(&'a mut P::Sync) -> Option<TAction>,
>(
    sync: OptimisticFullSync<P>,
    borrowed: &'a mut OptimisticFullSync<P>,
    source: P::Source,
    register: TRegister,
    next: TNext,
)
    requires
        forall|scheduler: &'a mut P::Sync| #[trigger] register.requires((scheduler, source)),
        forall|scheduler: &'a mut P::Sync| #[trigger] next.requires((scheduler,)),
    ensures
        call_requires(OptimisticFullSync::<P>::process_one, (sync,)),
        call_requires(OptimisticFullSync::<P>::best_block_number, (&sync,)),
        call_requires(OptimisticFullSync::<P>::best_block_hash, (&sync,)),
        call_requires(
            OptimisticFullSync::<P>::add_source::<TRegister>,
            (borrowed, source, register),
        ),
        call_requires(
            OptimisticFullSync::<P>::next_request_action::<TAction, TNext>,
            (borrowed, next),
        ),
{
}

/// The blocks that the scheduler gives out are processed from the state that the state machine was
/// in, with room made in the tree for as many blocks as there are.
pub proof fn law_taken_blocks_are_processed<P: Platform>(
    sync: OptimisticFullSync<P>,
    asked: ProcessOne<P>,
    state: ChainState<P>,
    scheduler: P::Sync,
    blocks: ToProcess<P>,
    process: ProcessOne<P>,
    number: u64,
    hash: [u8; 32],
)
    requires
        call_ensures(OptimisticFullSync::<P>::process_one, (sync,), asked),
        asked is Call && asked->Call_0 is TakeBlocks ==> asked == ProcessOne::Call(
            Call::TakeBlocks { sync: scheduler, state },
        ),
        call_ensures(
            ChainState::<P>::blocks_taken,
            (state, Ok::<ToProcess<P>, P::Sync>(blocks)),
            process,
        ),
        call_ensures(OptimisticFullSync::<P>::best_block_number, (&sync,), number),
        call_ensures(OptimisticFullSync::<P>::best_block_hash, (&sync,), hash),
    ensures
        asked is Call && asked->Call_0 is TakeBlocks,
        process matches ProcessOne::Call(Call::Reserve { chain, additional, shared }) && {
            &&& chain == state.chain
            &&& chain.best_block_number == number
            &&& chain.best_block_hash == hash
            &&& additional == blocks.blocks@.len()
            &&& shared.to_process == blocks
            &&& shared.best_to_finalized_storage_diff == state.best_to_finalized_storage_diff
            &&& shared.runtime_code_cache == state.runtime_code_cache
        },
{
}

/// A state machine that is told to process blocks when the scheduler has none comes back as it was:
/// told again, it is in the same state and asks the scheduler that it got back.
pub proof fn law_idle_machine_comes_back<P: Platform>(
    sync: OptimisticFullSync<P>,
    scheduler: P::Sync,
    state: ChainState<P>,
    given_back: P::Sync,
    end: ProcessOne<P>,
    back: OptimisticFullSync<P>,
    again: ProcessOne<P>,
)
    requires
        call_ensures(
            OptimisticFullSync::<P>::process_one,
            (sync,),
            ProcessOne::Call(Call::TakeBlocks { sync: scheduler, state }),
        ),
        call_ensures(
            ChainState::<P>::blocks_taken,
            (state, Err::<ToProcess<P>, P::Sync>(given_back)),
            end,
        ),
        end is Finished ==> end == (ProcessOne::Finished { sync: back }),
        call_ensures(OptimisticFullSync::<P>::process_one, (back,), again),
    ensures
        end is Finished,
        again == ProcessOne::Call(Call::<P>::TakeBlocks { sync: given_back, state }),
{
}

/// The state machine that comes back at the end of the processing is in the state that the report
/// was made from, around the scheduler that came back with the report.
pub proof fn law_finished_machine_is_in_reported_state<P: Platform>(
    state: ChainState<P>,
    scheduler: P::Sync,
    end: ProcessOne<P>,
    back: OptimisticFullSync<P>,
    number: u64,
    hash: [u8; 32],
    again: ProcessOne<P>,
)
    requires
        call_ensures(ChainState::<P>::finish, (state, scheduler), end),
        end is Finished ==> end == (ProcessOne::Finished { sync: back }),
        call_ensures(OptimisticFullSync::<P>::best_block_number, (&back,), number),
        call_ensures(OptimisticFullSync::<P>::best_block_hash, (&back,), hash),
        call_ensures(OptimisticFullSync::<P>::process_one, (back,), again),
    ensures
        end is Finished,
        number == state.chain.best_block_number,
        hash == state.chain.best_block_hash,
        again == ProcessOne::Call(Call::<P>::TakeBlocks { sync: scheduler, state }),
{
}

/// A new state machine is made of the tree and the scheduler that the given functions build. The
/// tree is built from the chain information, the BABE configuration and the capacity for blocks of
/// the configuration; the scheduler from the number of the best block of that very tree and from the
/// rest of the configuration. Nothing is known of the storage or of the runtime.
pub proof fn law_new_machine_is_built_from_configuration<
    P: Platform,
    TTree: FnOnce(TreeConfig<P>) -> Chain<P>,
    TSync: FnOnce(SyncConfig) -> P::Sync,
>(
    config: Config<P>,
    new_tree: TTree,
    new_sync: TSync,
    sync: OptimisticFullSync<P>,
    number: u64,
    hash: [u8; 32],
    process: ProcessOne<P>,
    key: Seq<u8>,
)
    requires
        call_ensures(OptimisticFullSync::<P>::new::<TTree, TSync>, (config, new_tree, new_sync), sync),
        call_ensures(OptimisticFullSync::<P>::best_block_number, (&sync,), number),
        call_ensures(OptimisticFullSync::<P>::best_block_hash, (&sync,), hash),
        call_ensures(OptimisticFullSync::<P>::process_one, (sync,), process),
    ensures
        process matches ProcessOne::Call(Call::TakeBlocks { sync: scheduler, state }) && {
            &&& new_tree.ensures(
                (TreeConfig {
                    chain_information: config.chain_information,
                    babe_genesis_config: config.babe_genesis_config,
                    blocks_capacity: config.blocks_capacity,
                },),
                state.chain,
            )
            &&& new_sync.ensures(
                (SyncConfig {
                    best_block_number: state.chain.best_block_number,
                    sources_capacity: config.sources_capacity,
                    blocks_request_granularity: config.blocks_request_granularity,
                    download_ahead_blocks: config.download_ahead_blocks,
                    source_selection_randomness_seed: config.source_selection_randomness_seed,
                },),
                scheduler,
            )
            &&& number == state.chain.best_block_number
            &&& hash == state.chain.best_block_hash
            &&& !state.best_to_finalized_storage_diff@.contains_key(key)
            &&& state.runtime_code_cache is None
        },
{
}

/// A new state machine can be built from any configuration that the given functions accept.
pub proof fn law_every_configuration_is_accepted<
    P: Platform,
    TTree: FnOnce(TreeConfig<P>) -> Chain<P>,
    TSync: FnOnce(SyncConfig) -> P::Sync,
>(config: Config<P>, new_tree: TTree, new_sync: TSync)
    requires
        forall|tree: TreeConfig<P>| #[trigger] new_tree.requires((tree,)),
        forall|scheduler: SyncConfig| #[trigger] new_sync.requires((scheduler,)),
    ensures
        call_requires(
            OptimisticFullSync::<P>::new::<TTree, TSync>,
            (config, new_tree, new_sync),
        ),
{
}

/// The information about the chain is what the given function reads from the tree that the state
/// machine holds.
pub proof fn law_information_is_read_from_tree<
    'a,
    P: Platform,
    TInfo,
    TBuild: FnOnce(&'a P::Tree) -> TInfo,
>(
    sync: &'a OptimisticFullSync<P>,
    build: TBuild,
    information: TInfo,
    scheduler: P::Sync,
    state: ChainState<P>,
)
    requires
        call_ensures(
            OptimisticFullSync::<P>::as_chain_information::<TInfo, TBuild>,
            (sync, build),
            information,
        ),
        call_ensures(
            OptimisticFullSync::<P>::process_one,
            (*sync,),
            ProcessOne::Call(Call::TakeBlocks { sync: scheduler, state }),
        ),
    ensures
        build.ensures((&state.chain.tree,), information),
{
}

/// A source is handed to the scheduler as it is, what comes back is what the scheduler returned, and
/// nothing else of the state machine changes.
pub proof fn law_source_is_added_to_scheduler<
    'a,
    P: Platform,
    TRegister: FnOnce(&'a mut P::Sync, P::Source) -> P::SourceId,
>(
    sync: &'a mut OptimisticFullSync<P>,
    source: P::Source,
    register: TRegister,
    id: P::SourceId,
    before: (P::Sync, ChainState<P>),
    after: (P::Sync, ChainState<P>),
)
    requires
        call_ensures(
            OptimisticFullSync::<P>::add_source::<TRegister>,
            (sync, source, register),
            id,
        ),
        call_ensures(
            OptimisticFullSync::<P>::process_one,
            (*sync,),
            ProcessOne::Call(Call::TakeBlocks { sync: before.0, state: before.1 }),
        ),
        call_ensures(
            OptimisticFullSync::<P>::process_one,
            (*final(sync),),
            ProcessOne::Call(Call::TakeBlocks { sync: after.0, state: after.1 }),
        ),
    ensures
        after.1 == before.1,
        exists|scheduler: &'a mut P::Sync|
            *scheduler == before.0 && *final(scheduler) == after.0 && #[trigger] register.ensures(
                (scheduler, source),
                id,
            ),
{
}

/// A source is taken from the scheduler by what identifies it, what comes back is what the scheduler
/// returned, and nothing else of the state machine changes.
pub proof fn law_source_is_removed_from_scheduler<
    'a,
    P: Platform,
    TRemoved,
    TRemove: FnOnce(&'a mut P::Sync, P::SourceId) -> TRemoved,
>(
    sync: &'a mut OptimisticFullSync<P>,
    source: P::SourceId,
    remove: TRemove,
    removed: TRemoved,
    before: (P::Sync, ChainState<P>),
    after: (P::Sync, ChainState<P>),
)
    requires
        call_ensures(
            OptimisticFullSync::<P>::remove_source::<TRemoved, TRemove>,
            (sync, source, remove),
            removed,
        ),
        call_ensures(
            OptimisticFullSync::<P>::process_one,
            (*sync,),
            ProcessOne::Call(Call::TakeBlocks { sync: before.0, state: before.1 }),
        ),
        call_ensures(
            OptimisticFullSync::<P>::process_one,
            (*final(sync),),
            ProcessOne::Call(Call::TakeBlocks { sync: after.0, state: after.1 }),
        ),
    ensures
        after.1 == before.1,
        exists|scheduler: &'a mut P::Sync|
            *scheduler == before.0 && *final(scheduler) == after.0 && #[trigger] remove.ensures(
                (scheduler, source),
                removed,
            ),
{
}

/// The next action on a request is the scheduler's, and nothing else of the state machine changes.
pub proof fn law_request_action_is_that_of_scheduler<
    'a,
    P: Platform,
    TAction,
    TNext: FnOnce(&'a mut P::Sync) -> Option<TAction>,
>(
    sync: &'a mut OptimisticFullSync<P>,
    next: TNext,
    action: Option<TAction>,
    before: (P::Sync, ChainState<P>),
    after: (P::Sync, ChainState<P>),
)
    requires
        call_ensures(
            OptimisticFullSync::<P>::next_request_action::<TAction, TNext>,
            (sync, next),
            action,
        ),
        call_ensures(
            OptimisticFullSync::<P>::process_one,
            (*sync,),
            ProcessOne::Call(Call::TakeBlocks { sync: before.0, state: before.1 }),
        ),
        call_ensures(
            OptimisticFullSync::<P>::process_one,
            (*final(sync),),
            ProcessOne::Call(Call::TakeBlocks { sync: after.0, state: after.1 }),
        ),
    ensures
        after.1 == before.1,
        exists|scheduler: &'a mut P::Sync|
            *scheduler == before.0 && *final(scheduler) == after.0 && #[trigger] next.ensures(
                (scheduler,),
                action,
            ),
{
}

/// The outcome of a request is handed to the scheduler as it is, what comes back is what the
/// scheduler returned, and nothing else of the state machine changes.
pub proof fn law_request_is_finished_by_scheduler<
    'a,
    P: Platform,
    TFinished,
    TFinish: FnOnce(
        &'a mut P::Sync,
        P::RequestId,
        Result<Vec<RequestSuccessBlock>, P::RequestFail>,
    ) -> TFinished,
>(
    sync: &'a mut OptimisticFullSync<P>,
    request_id: P::RequestId,
    outcome: Result<Vec<RequestSuccessBlock>, P::RequestFail>,
    finish: TFinish,
    finished: TFinished,
    before: (P::Sync, ChainState<P>),
    after: (P::Sync, ChainState<P>),
)
    requires
        call_ensures(
            OptimisticFullSync::<P>::finish_request::<TFinished, TFinish>,
            (sync, request_id, outcome, finish),
            finished,
        ),
        call_ensures(
            OptimisticFullSync::<P>::process_one,
            (*sync,),
            ProcessOne::Call(Call::TakeBlocks { sync: before.0, state: before.1 }),
        ),
        call_ensures(
            OptimisticFullSync::<P>::process_one,
            (*final(sync),),
            ProcessOne::Call(Call::TakeBlocks { sync: after.0, state: after.1 }),
        ),
    ensures
        after.1 == before.1,
        exists|scheduler: &'a mut P::Sync|
            *scheduler == before.0 && *final(scheduler) == after.0 && #[trigger] finish.ensures(
                (scheduler, request_id, outcome),
                finished,
            ),
{
}

} // verus!
