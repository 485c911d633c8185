//! What the parts of the state machine guarantee together.
//!
//! The laws speak of the storage of the finalized block, which the user holds, as a map from keys
//! to values, and of what the state machine makes of the user's answers.
use vstd::prelude::*;

use crate::full_sync::{ends, follows_blocks, ChainState, OptimisticFullSync};
use crate::platform::{Chain, Platform};
use crate::process::{
    code_key, follows, follows_key, follows_keys, follows_value, BodyVerifyStep1,
    BodyVerifyStep2, Call, Inner, ProcessOne, ProcessOneShared, StorageGet,
    StorageNextKey, StoragePrefixKeys, ToProcess,
};
use crate::storage_diff::keys_through;

verus! {

/// The storage that comes of `storage` when the changes of `diff` are made to it.
pub open spec fn changed(
    storage: Map<Seq<u8>, Seq<u8>>,
    diff: Map<Seq<u8>, Option<Seq<u8>>>,
) -> Map<Seq<u8>, Seq<u8>> {
    Map::new(
        |key: Seq<u8>|
            if diff.contains_key(key) {
                diff[key] is Some
            } else {
                storage.contains_key(key)
            },
        |key: Seq<u8>|
            if diff.contains_key(key) {
                diff[key]->0
            } else {
                storage[key]
            },
    )
}

/// The value of a key in a storage, if it has one.
pub open spec fn lookup(storage: Map<Seq<u8>, Seq<u8>>, key: Seq<u8>) -> Option<Seq<u8>> {
    if storage.contains_key(key) {
        Some(storage[key])
    } else {
        None
    }
}

/// The keys of a storage that start with a prefix.
pub open spec fn keys_below(storage: Map<Seq<u8>, Seq<u8>>, prefix: Seq<u8>) -> Set<Seq<u8>> {
    Set::new(|key: Seq<u8>| storage.contains_key(key) && prefix.is_prefix_of(key))
}

/// The key of the runtime code is spelled `:code`.
pub proof fn law_code_key_is_spelled(i: int)
    ensures
        code_key().len() == ":code"@.len(),
        0 <= i < code_key().len() ==> code_key()[i] as int == ":code"@[i] as int,
{
    reveal_strlit(":code");
}

/// What is read from a changed storage is the new value of a key that is changed, nothing for one
/// that is erased, and what was read before for every other.
pub proof fn law_changed_storage_is_read(
    storage: Map<Seq<u8>, Seq<u8>>,
    diff: Map<Seq<u8>, Option<Seq<u8>>>,
    key: Seq<u8>,
    prefix: Seq<u8>,
)
    ensures
        diff.contains_key(key) ==> lookup(changed(storage, diff), key) == diff[key],
        !diff.contains_key(key) && storage.contains_key(key) ==> lookup(changed(storage, diff), key)
            == Some(storage[key]),
        !diff.contains_key(key) && !storage.contains_key(key) ==> lookup(
            changed(storage, diff),
            key,
        ) is None,
        keys_below(storage, prefix).contains(key) == (storage.dom().contains(key)
            && prefix.is_prefix_of(key)),
{
}

/// The storage of the best block, while a chunk of blocks is processed.
pub open spec fn best_storage<P: Platform>(
    finalized: Map<Seq<u8>, Seq<u8>>,
    shared: ProcessOneShared<P>,
) -> Map<Seq<u8>, Seq<u8>> {
    changed(finalized, shared.best_to_finalized_storage_diff@)
}

/// The value that a verification asks for is handed to it without further ado where the diff has
/// it, and is then the value of the best block.
pub proof fn law_value_in_diff_is_that_of_best_block<P: Platform>(
    finalized: Map<Seq<u8>, Seq<u8>>,
    req: P::StorageGet,
    key: Vec<Vec<u8>>,
    shared: ProcessOneShared<P>,
    process: ProcessOne<P>,
)
    requires
        shared.best_to_finalized_storage_diff@.contains_key(key.deep_view().flatten()),
        follows(Inner::Step2(BodyVerifyStep2::StorageGet { req, key }), shared, process),
    ensures
        process matches ProcessOne::Call(Call::InjectValue { req: waiting, value, shared: rest })
            && waiting == req && value.deep_view() == lookup(
            best_storage(finalized, shared),
            key.deep_view().flatten(),
        ) && rest == shared,
{
}

/// Where the diff does not have the value that a verification asks for, the user is asked for it,
/// under the same key. If the user answers with the value of the finalized block, the
/// verification is handed the value of the best block.
pub proof fn law_value_of_user_is_that_of_best_block<P: Platform>(
    finalized: Map<Seq<u8>, Seq<u8>>,
    req: P::StorageGet,
    key: Vec<Vec<u8>>,
    shared: ProcessOneShared<P>,
    asked: ProcessOne<P>,
    answered: ProcessOne<P>,
)
    requires
        !shared.best_to_finalized_storage_diff@.contains_key(key.deep_view().flatten()),
        follows(Inner::Step2(BodyVerifyStep2::StorageGet { req, key }), shared, asked),
        asked matches ProcessOne::FinalizedStorageGet(get) ==> follows_value(
            get,
            lookup(finalized, get.key_pieces().flatten()),
            answered,
        ),
    ensures
        asked is FinalizedStorageGet,
        answered matches ProcessOne::Call(Call::InjectValue { req: waiting, value, shared: rest })
            && waiting == req && value.deep_view() == lookup(
            best_storage(finalized, shared),
            key.deep_view().flatten(),
        ) && rest == shared,
{
}

/// Changes made one after the other are the changes of both diffs made at once.
pub proof fn law_diffs_compose(
    storage: Map<Seq<u8>, Seq<u8>>,
    first: Map<Seq<u8>, Option<Seq<u8>>>,
    second: Map<Seq<u8>, Option<Seq<u8>>>,
)
    ensures
        changed(storage, first.union_prefer_right(second)) == changed(
            changed(storage, first),
            second,
        ),
{
    assert(changed(storage, first.union_prefer_right(second)) =~= changed(
        changed(storage, first),
        second,
    ));
}

/// When a verified block is inserted, what is then taken for the storage of the best block is the
/// storage that it was verified on with its own changes made.
pub proof fn law_verified_block_changes_best_storage<P: Platform>(
    finalized: Map<Seq<u8>, Seq<u8>>,
    step: BodyVerifyStep2<P>,
    shared: ProcessOneShared<P>,
    process: ProcessOne<P>,
)
    requires
        step matches BodyVerifyStep2::Finished { result, .. } && result is Ok,
        follows(Inner::Step2(step), shared, process),
    ensures
        process matches ProcessOne::Call(Call::Insert { shared: rest, .. }) && best_storage(
            finalized,
            rest,
        ) == changed(best_storage(finalized, shared), step->storage_top_trie_changes@),
{
    law_diffs_compose(
        finalized,
        shared.best_to_finalized_storage_diff@,
        step->storage_top_trie_changes@,
    );
}

/// What a block writes is what the verification of a later block reads, as long as no block in
/// between is inserted, and without asking the user.
pub proof fn law_written_value_is_read_back<P: Platform>(
    step: BodyVerifyStep2<P>,
    shared: ProcessOneShared<P>,
    inserted: ProcessOne<P>,
    req: P::StorageGet,
    key: Vec<Vec<u8>>,
    later: ProcessOneShared<P>,
    read: ProcessOne<P>,
)
    requires
        step matches BodyVerifyStep2::Finished { result, .. } && result is Ok,
        step->storage_top_trie_changes@.contains_key(key.deep_view().flatten()),
        follows(Inner::Step2(step), shared, inserted),
        inserted matches ProcessOne::Call(Call::Insert { shared: rest, .. })
            ==> later.best_to_finalized_storage_diff == rest.best_to_finalized_storage_diff,
        follows(Inner::Step2(BodyVerifyStep2::StorageGet { req, key }), later, read),
    ensures
        read matches ProcessOne::Call(Call::InjectValue { req: waiting, value, shared: rest })
            && waiting == req && value.deep_view()
            == step->storage_top_trie_changes@[key.deep_view().flatten()] && rest == later,
{
}

/// A state machine that has no changes to the storage and no cached runtime, as a new one, takes
/// the storage of the finalized block for that of the best block, and is valid.
pub proof fn law_fresh_state_is_valid<P: Platform>(
    state: ChainState<P>,
    finalized: Map<Seq<u8>, Seq<u8>>,
    code_of: spec_fn(P::WasmVm) -> Seq<u8>,
)
    requires
        state.best_to_finalized_storage_diff@ == Map::<Seq<u8>, Option<Seq<u8>>>::empty(),
        state.runtime_code_cache is None,
    ensures
        changed(finalized, state.best_to_finalized_storage_diff@) == finalized,
        state_is_valid(state, finalized, code_of),
{
    assert(changed(finalized, state.best_to_finalized_storage_diff@) =~= finalized);
}

/// The tree that comes back with a refused block, if `inner` is a refusal.
pub open spec fn refused<P: Platform>(inner: Inner<P>) -> Option<Chain<P>> {
    match inner {
        Inner::Step1(BodyVerifyStep1::InvalidHeader(chain)) => Some(chain),
        Inner::Step1(BodyVerifyStep1::Duplicate(chain)) => Some(chain),
        Inner::Step1(BodyVerifyStep1::BadParent(chain)) => Some(chain),
        Inner::Step2(BodyVerifyStep2::Finished { result: Err(chain), .. }) => Some(chain),
        _ => None,
    }
}

/// A block that is refused, whether in the first step of its verification or at its end, ends the
/// processing of the chunk. The scheduler is told to start again from the finalized block, and the
/// state machine keeps the tree and the storage of its best block.
pub proof fn law_refused_block_ends_chunk<P: Platform>(
    inner: Inner<P>,
    shared: ProcessOneShared<P>,
    process: ProcessOne<P>,
    scheduler: P::Sync,
    end: ProcessOne<P>,
)
    requires
        refused(inner) is Some,
        follows(inner, shared, process),
        process matches ProcessOne::Call(Call::ResetToFinalized { state, .. }) ==> ends(
            state,
            scheduler,
            end,
        ),
    ensures
        process matches ProcessOne::Call(Call::ResetToFinalized { report, height, .. }) && report
            == shared.to_process.report && height == refused(inner)->0.finalized_block_number,
        end matches ProcessOne::Finished { sync } && sync.sync() == scheduler && sync.state().chain
            == refused(inner)->0 && sync.state().best_to_finalized_storage_diff
            == shared.best_to_finalized_storage_diff,
{
}

/// A user who is asked for the keys below a prefix and answers with those of the finalized block
/// makes the verification get those of the best block.
pub proof fn law_keys_of_user_are_those_of_best_block<P: Platform>(
    finalized: Map<Seq<u8>, Seq<u8>>,
    req: P::StoragePrefixKeys,
    prefix: Vec<u8>,
    shared: ProcessOneShared<P>,
    asked: ProcessOne<P>,
    answered: ProcessOne<P>,
)
    requires
        follows(Inner::Step2(BodyVerifyStep2::StoragePrefixKeys { req, prefix }), shared, asked),
        asked matches ProcessOne::FinalizedStoragePrefixKeys(request) ==> follows_keys(
            request,
            keys_below(finalized, request.key_prefix()),
            answered,
        ),
    ensures
        asked is FinalizedStoragePrefixKeys,
        answered matches ProcessOne::Call(Call::InjectKeys { req: waiting, keys, shared: rest })
            && waiting == req && keys.deep_view().to_set() == keys_below(
            best_storage(finalized, shared),
            prefix@,
        ) && keys.deep_view().no_duplicates() && rest == shared,
{
    assert(keys_through(
        keys_below(finalized, prefix@),
        shared.best_to_finalized_storage_diff@,
        prefix@,
    ) =~= keys_below(best_storage(finalized, shared), prefix@));
}

/// A user who is asked for the key that follows another has the answer handed to the verification
/// as it is.
pub proof fn law_next_key_of_user_is_handed_on<P: Platform>(
    req: P::StorageNextKey,
    key: Vec<u8>,
    shared: ProcessOneShared<P>,
    asked: ProcessOne<P>,
    answer: Option<Seq<u8>>,
    answered: ProcessOne<P>,
)
    requires
        follows(Inner::Step2(BodyVerifyStep2::StorageNextKey { req, key }), shared, asked),
        asked matches ProcessOne::FinalizedStorageNextKey(request) ==> follows_key(
            request,
            answer,
            answered,
        ),
    ensures
        asked matches ProcessOne::FinalizedStorageNextKey(request) && request.from_key() == key@,
        answered matches ProcessOne::Call(
            Call::InjectKey { req: waiting, key: injected, shared: rest },
        ) && waiting == req && injected.deep_view() == answer && rest == shared,
{
}

/// A cached runtime is the one of the best block. `code_of` tells the code that a runtime was
/// compiled from.
pub open spec fn cache_is_valid<P: Platform>(
    cache: Option<P::WasmVm>,
    best_storage: Map<Seq<u8>, Seq<u8>>,
    code_of: spec_fn(P::WasmVm) -> Seq<u8>,
) -> bool {
    cache matches Some(runtime) ==> lookup(best_storage, code_key()) == Some(code_of(runtime))
}

/// The cache of a state machine is valid.
pub open spec fn state_is_valid<P: Platform>(
    state: ChainState<P>,
    finalized: Map<Seq<u8>, Seq<u8>>,
    code_of: spec_fn(P::WasmVm) -> Seq<u8>,
) -> bool {
    cache_is_valid::<P>(
        state.runtime_code_cache,
        changed(finalized, state.best_to_finalized_storage_diff@),
        code_of,
    )
}

/// The cache is valid between two blocks.
pub open spec fn shared_is_valid<P: Platform>(
    shared: ProcessOneShared<P>,
    finalized: Map<Seq<u8>, Seq<u8>>,
    code_of: spec_fn(P::WasmVm) -> Seq<u8>,
) -> bool {
    cache_is_valid::<P>(shared.runtime_code_cache, best_storage(finalized, shared), code_of)
}

/// The cache is valid wherever the processing stands, it is empty while a verification has the
/// runtime, the runtime that a verification gets is the one of the best block, and the user is
/// only asked for values that are the same in the best block.
pub open spec fn is_valid<P: Platform>(
    process: ProcessOne<P>,
    finalized: Map<Seq<u8>, Seq<u8>>,
    code_of: spec_fn(P::WasmVm) -> Seq<u8>,
) -> bool {
    match process {
        ProcessOne::Finished { sync } => state_is_valid(sync.state(), finalized, code_of),
        ProcessOne::FinalizedStorageGet(get) => {
            &&& get.shared().runtime_code_cache is None
            &&& lookup(finalized, get.key_pieces().flatten()) == lookup(
                best_storage(finalized, get.shared()),
                get.key_pieces().flatten(),
            )
        },
        ProcessOne::FinalizedStoragePrefixKeys(keys) => keys.shared().runtime_code_cache is None,
        ProcessOne::FinalizedStorageNextKey(next) => next.shared().runtime_code_cache is None,
        ProcessOne::Call(Call::TakeBlocks { state, .. }) => state_is_valid(
            state,
            finalized,
            code_of,
        ),
        ProcessOne::Call(Call::Reserve { shared, .. }) => shared_is_valid(
            shared,
            finalized,
            code_of,
        ),
        ProcessOne::Call(Call::VerifyBody { shared, .. }) => shared_is_valid(
            shared,
            finalized,
            code_of,
        ),
        ProcessOne::Call(Call::Compile { code, shared, .. }) => {
            &&& shared.runtime_code_cache is None
            &&& lookup(best_storage(finalized, shared), code_key()) == Some(code@)
        },
        ProcessOne::Call(Call::Resume { runtime, shared, .. }) => {
            &&& shared.runtime_code_cache is None
            &&& lookup(best_storage(finalized, shared), code_key()) == Some(code_of(runtime))
        },
        ProcessOne::Call(Call::Insert { shared, .. }) => shared_is_valid(
            shared,
            finalized,
            code_of,
        ),
        ProcessOne::Call(Call::InjectValue { shared, .. }) => shared.runtime_code_cache is None,
        ProcessOne::Call(Call::InjectKeys { shared, .. }) => shared.runtime_code_cache is None,
        ProcessOne::Call(Call::InjectKey { shared, .. }) => shared.runtime_code_cache is None,
        ProcessOne::Call(Call::UpdateBlockHeight { state, .. }) => state_is_valid(
            state,
            finalized,
            code_of,
        ),
        ProcessOne::Call(Call::ResetToFinalized { state, .. }) => state_is_valid(
            state,
            finalized,
            code_of,
        ),
    }
}

/// The platform has kept to its part: what it hands in belongs to what it was given, and a
/// verification gives back a runtime of the best block, as it got one.
pub open spec fn answer_is_valid<P: Platform>(
    inner: Inner<P>,
    shared: ProcessOneShared<P>,
    finalized: Map<Seq<u8>, Seq<u8>>,
    code_of: spec_fn(P::WasmVm) -> Seq<u8>,
) -> bool {
    match inner {
        Inner::Start(_) | Inner::Step1(_) => shared_is_valid(shared, finalized, code_of),
        Inner::Step2(step) => {
            &&& shared.runtime_code_cache is None
            &&& step matches BodyVerifyStep2::Finished { parent_runtime, .. } ==> lookup(
                best_storage(finalized, shared),
                code_key(),
            ) == Some(code_of(parent_runtime))
        },
    }
}

/// The processing can go on with every outcome as long as the best block has code, whatever the user
/// has for its storage.
pub proof fn law_best_block_with_code_goes_on<P: Platform>(
    inner: Inner<P>,
    shared: ProcessOneShared<P>,
    finalized: Map<Seq<u8>, Seq<u8>>,
    result: bool,
)
    requires
        best_storage(finalized, shared).contains_key(code_key()),
        call_ensures(ProcessOne::<P>::can_continue, (&inner, &shared), result),
    ensures
        result,
        call_requires(ProcessOne::<P>::from, (inner, shared)),
{
}

/// Processing starts valid if the state machine is.
pub proof fn law_process_one_starts_valid<P: Platform>(
    sync: OptimisticFullSync<P>,
    finalized: Map<Seq<u8>, Seq<u8>>,
    code_of: spec_fn(P::WasmVm) -> Seq<u8>,
)
    requires
        state_is_valid(sync.state(), finalized, code_of),
    ensures
        is_valid(
            ProcessOne::<P>::Call(Call::TakeBlocks { sync: sync.sync(), state: sync.state() }),
            finalized,
            code_of,
        ),
{
}

/// Processing stays valid when the scheduler has been asked for blocks.
pub proof fn law_taken_blocks_keep_valid<P: Platform>(
    state: ChainState<P>,
    answer: Result<ToProcess<P>, P::Sync>,
    process: ProcessOne<P>,
    finalized: Map<Seq<u8>, Seq<u8>>,
    code_of: spec_fn(P::WasmVm) -> Seq<u8>,
)
    requires
        state_is_valid(state, finalized, code_of),
        follows_blocks(state, answer, process),
    ensures
        is_valid(process, finalized, code_of),
{
}

/// Processing that ends gives back a valid state machine.
pub proof fn law_end_keeps_valid<P: Platform>(
    state: ChainState<P>,
    scheduler: P::Sync,
    process: ProcessOne<P>,
    finalized: Map<Seq<u8>, Seq<u8>>,
    code_of: spec_fn(P::WasmVm) -> Seq<u8>,
)
    requires
        state_is_valid(state, finalized, code_of),
        ends(state, scheduler, process),
    ensures
        is_valid(process, finalized, code_of),
{
}

/// Processing stays valid whatever the components of the platform answer, if they keep to their
/// part. So a verification never runs with another runtime than that of the best block.
pub proof fn law_platform_keeps_valid<P: Platform>(
    inner: Inner<P>,
    shared: ProcessOneShared<P>,
    process: ProcessOne<P>,
    finalized: Map<Seq<u8>, Seq<u8>>,
    code_of: spec_fn(P::WasmVm) -> Seq<u8>,
)
    requires
        answer_is_valid(inner, shared, finalized, code_of),
        follows(inner, shared, process),
    ensures
        is_valid(process, finalized, code_of),
{
    if let ProcessOne::FinalizedStorageGet(get) = process {
        if inner is Step1 {
            assert(seq![code_key()].len() == 1);
            seq![code_key()].lemma_flatten_one_element();
        }
    }
}

/// Processing stays valid when the code that it wanted compiled has been compiled.
pub proof fn law_compiled_code_keeps_valid<P: Platform>(
    req: P::RuntimeRequired,
    code: Vec<u8>,
    runtime: P::WasmVm,
    shared: ProcessOneShared<P>,
    finalized: Map<Seq<u8>, Seq<u8>>,
    code_of: spec_fn(P::WasmVm) -> Seq<u8>,
)
    requires
        is_valid(ProcessOne::Call(Call::<P>::Compile { req, code, shared }), finalized, code_of),
        code_of(runtime) == code@,
    ensures
        is_valid(ProcessOne::Call(Call::<P>::Resume { req, runtime, shared }), finalized, code_of),
{
}

/// Processing stays valid if the user answers with a value of the storage of the finalized block.
pub proof fn law_value_of_user_keeps_valid<P: Platform>(
    get: StorageGet<P>,
    process: ProcessOne<P>,
    finalized: Map<Seq<u8>, Seq<u8>>,
    code_of: spec_fn(P::WasmVm) -> Seq<u8>,
)
    requires
        is_valid(ProcessOne::FinalizedStorageGet(get), finalized, code_of),
        follows_value(get, lookup(finalized, get.key_pieces().flatten()), process),
    ensures
        is_valid(process, finalized, code_of),
{
    seq![code_key()].lemma_flatten_one_element();
}

/// Processing stays valid whatever keys the user answers with.
pub proof fn law_keys_of_user_keep_valid<P: Platform>(
    request: StoragePrefixKeys<P>,
    keys: Set<Seq<u8>>,
    process: ProcessOne<P>,
    finalized: Map<Seq<u8>, Seq<u8>>,
    code_of: spec_fn(P::WasmVm) -> Seq<u8>,
)
    requires
        is_valid(ProcessOne::FinalizedStoragePrefixKeys(request), finalized, code_of),
        follows_keys(request, keys, process),
    ensures
        is_valid(process, finalized, code_of),
{
}

/// Processing stays valid whatever following key the user answers with.
pub proof fn law_next_key_of_user_keeps_valid<P: Platform>(
    request: StorageNextKey<P>,
    key: Option<Seq<u8>>,
    process: ProcessOne<P>,
    finalized: Map<Seq<u8>, Seq<u8>>,
    code_of: spec_fn(P::WasmVm) -> Seq<u8>,
)
    requires
        is_valid(ProcessOne::FinalizedStorageNextKey(request), finalized, code_of),
        follows_key(request, key, process),
    ensures
        is_valid(process, finalized, code_of),
{
}

/// The blocks that are still to be processed and where to report, as long as that is open.
pub open spec fn left_to_process<P: Platform>(process: ProcessOne<P>) -> Option<ToProcess<P>> {
    match process {
        ProcessOne::FinalizedStorageGet(get) => Some(get.shared().to_process),
        ProcessOne::FinalizedStoragePrefixKeys(keys) => Some(keys.shared().to_process),
        ProcessOne::FinalizedStorageNextKey(next) => Some(next.shared().to_process),
        ProcessOne::Call(Call::Reserve { shared, .. }) => Some(shared.to_process),
        ProcessOne::Call(Call::VerifyBody { shared, .. }) => Some(shared.to_process),
        ProcessOne::Call(Call::Compile { shared, .. }) => Some(shared.to_process),
        ProcessOne::Call(Call::Resume { shared, .. }) => Some(shared.to_process),
        ProcessOne::Call(Call::Insert { shared, .. }) => Some(shared.to_process),
        ProcessOne::Call(Call::InjectValue { shared, .. }) => Some(shared.to_process),
        ProcessOne::Call(Call::InjectKeys { shared, .. }) => Some(shared.to_process),
        ProcessOne::Call(Call::InjectKey { shared, .. }) => Some(shared.to_process),
        _ => None,
    }
}

/// No step of a verification touches the blocks that are still to be processed, unless the block is
/// refused.
pub proof fn law_verification_leaves_other_blocks_alone<P: Platform>(
    inner: Inner<P>,
    shared: ProcessOneShared<P>,
    process: ProcessOne<P>,
)
    requires
        !(inner is Start),
        refused(inner) is None,
        follows(inner, shared, process),
    ensures
        left_to_process(process) == Some(shared.to_process),
{
}

/// No answer of the user touches the blocks that are still to be processed.
pub proof fn law_user_leaves_other_blocks_alone<P: Platform>(
    get: StorageGet<P>,
    value: Option<Seq<u8>>,
    prefix_keys: StoragePrefixKeys<P>,
    keys: Set<Seq<u8>>,
    next_key: StorageNextKey<P>,
    key: Option<Seq<u8>>,
    process: ProcessOne<P>,
)
    ensures
        follows_value(get, value, process) ==> left_to_process(process) == Some(
            get.shared().to_process,
        ),
        follows_keys(prefix_keys, keys, process) ==> left_to_process(process) == Some(
            prefix_keys.shared().to_process,
        ),
        follows_key(next_key, key, process) ==> left_to_process(process) == Some(
            next_key.shared().to_process,
        ),
{
}

/// Asking to process while the scheduler has no blocks gives the state machine back as it was,
/// around the scheduler.
pub proof fn law_nothing_to_process_changes_nothing<P: Platform>(
    sync: OptimisticFullSync<P>,
    scheduler: P::Sync,
    process: ProcessOne<P>,
)
    requires
        follows_blocks(sync.state(), Err(scheduler), process),
    ensures
        process matches ProcessOne::Finished { sync: back } && back.state() == sync.state()
            && back.sync() == scheduler,
{
}

/// The runtime that a verification gives back stays in the cache exactly as long as no block
/// changes the code. A block that does leaves the cache empty.
pub proof fn law_changed_code_empties_cache<P: Platform>(
    step: BodyVerifyStep2<P>,
    shared: ProcessOneShared<P>,
    process: ProcessOne<P>,
)
    requires
        step matches BodyVerifyStep2::Finished { result, .. } && result is Ok,
        shared.runtime_code_cache is None,
        follows(Inner::Step2(step), shared, process),
    ensures
        process matches ProcessOne::Call(Call::Insert { shared: rest, .. }) && (
        rest.runtime_code_cache is None <==> step->storage_top_trie_changes@.contains_key(
            code_key(),
        )) && (rest.runtime_code_cache is Some ==> rest.runtime_code_cache == Some(
            step->parent_runtime,
        )),
{
}

} // verus!
