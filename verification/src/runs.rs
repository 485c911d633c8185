//! What the state machine guarantees over a whole run, from [`OptimisticFullSync::process_one`] until
//! it is given back.
use vstd::prelude::*;

use crate::full_sync::{ends, follows_blocks, ChainState, OptimisticFullSync};
use crate::laws::{
    best_storage, changed, is_valid, keys_below, law_diffs_compose,
    law_platform_keeps_valid, law_value_of_user_keeps_valid, left_to_process, lookup, refused, state_is_valid,
};
use crate::platform::{Chain, Platform};
use crate::process::{
    code_key, follows, follows_key, follows_keys, follows_value, BodyVerifyStep2, Call, Inner,
    ProcessOne, ProcessOneShared, StorageGet, StorageNextKey, StoragePrefixKeys, ToProcess,
};
use crate::storage_diff::keys_through;

verus! {

/// What the user or the platform answers to what the processing needs.
pub enum Answer<P: Platform> {
    /// The user answers with a storage value.
    Value(Option<Seq<u8>>),

    /// The user answers with a set of keys.
    Keys(Set<Seq<u8>>),

    /// The user answers with the following key.
    NextKey(Option<Seq<u8>>),

    /// The scheduler answers with blocks, or with itself.
    Blocks(Result<ToProcess<P>, P::Sync>),

    /// The executor has compiled code, or failed to.
    Compiled(Result<P::WasmVm, P::CompileError>),

    /// The tree or a verification answers.
    Outcome(Inner<P>),

    /// The scheduler has taken a report.
    Reported(P::Sync),
}

/// `answer` is an answer to what `process` needs, and `next` is what the processing needs then.
pub open spec fn leads_to<P: Platform>(
    process: ProcessOne<P>,
    answer: Answer<P>,
    next: ProcessOne<P>,
) -> bool {
    match (process, answer) {
        (ProcessOne::FinalizedStorageGet(get), Answer::Value(value)) => follows_value(
            get,
            value,
            next,
        ),
        (ProcessOne::FinalizedStoragePrefixKeys(request), Answer::Keys(keys)) => follows_keys(
            request,
            keys,
            next,
        ),
        (ProcessOne::FinalizedStorageNextKey(request), Answer::NextKey(key)) => follows_key(
            request,
            key,
            next,
        ),
        (ProcessOne::Call(call), answer) => call_leads_to(call, answer, next),
        _ => false,
    }
}

/// `answer` is an answer to `call`, and `next` is what the processing needs then.
pub open spec fn call_leads_to<P: Platform>(
    call: Call<P>,
    answer: Answer<P>,
    next: ProcessOne<P>,
) -> bool {
    match (call, answer) {
        (Call::TakeBlocks { state, .. }, Answer::Blocks(blocks)) => follows_blocks(
            state,
            blocks,
            next,
        ),
        (Call::Reserve { shared, .. }, Answer::Outcome(inner)) => inner is Start && follows(
            inner,
            shared,
            next,
        ),
        (Call::VerifyBody { shared, .. }, Answer::Outcome(inner)) => inner is Step1 && follows(
            inner,
            shared,
            next,
        ),
        (Call::Compile { req, shared, .. }, Answer::Compiled(result)) => result is Ok && next
            == ProcessOne::Call(Call::Resume { req, runtime: result->Ok_0, shared }),
        (Call::Resume { shared, .. }, Answer::Outcome(inner)) => inner is Step2 && follows(
            inner,
            shared,
            next,
        ),
        (Call::Insert { shared, .. }, Answer::Outcome(inner)) => inner is Start && follows(
            inner,
            shared,
            next,
        ),
        (Call::InjectValue { shared, .. }, Answer::Outcome(inner)) => inner is Step2 && follows(
            inner,
            shared,
            next,
        ),
        (Call::InjectKeys { shared, .. }, Answer::Outcome(inner)) => inner is Step2 && follows(
            inner,
            shared,
            next,
        ),
        (Call::InjectKey { shared, .. }, Answer::Outcome(inner)) => inner is Step2 && follows(
            inner,
            shared,
            next,
        ),
        (Call::UpdateBlockHeight { state, .. }, Answer::Reported(scheduler)) => ends(
            state,
            scheduler,
            next,
        ),
        (Call::ResetToFinalized { state, .. }, Answer::Reported(scheduler)) => ends(
            state,
            scheduler,
            next,
        ),
        _ => false,
    }
}

/// A run: what the processing needs from moment to moment, and the answer to each but the last.
pub struct Run<P: Platform> {
    /// What the processing needs.
    pub needs: Seq<ProcessOne<P>>,

    /// The answers.
    pub answers: Seq<Answer<P>>,
}

impl<P: Platform> Run<P> {
    /// The run starts when `sync` is told to process blocks, and each answer leads on.
    pub open spec fn starts_from(self, sync: OptimisticFullSync<P>) -> bool {
        &&& self.needs.len() == self.answers.len() + 1
        &&& self.needs[0] == ProcessOne::<P>::Call(
            Call::TakeBlocks { sync: sync.sync(), state: sync.state() },
        )
        &&& forall|i: int| #[trigger] self.answered(i) ==> self.leads_on(i)
    }

    /// What is needed at moment `i` is answered.
    pub open spec fn answered(self, i: int) -> bool {
        0 <= i < self.answers.len()
    }

    /// The answer at moment `i` leads to the next moment.
    pub open spec fn leads_on(self, i: int) -> bool {
        leads_to(self.needs[i], self.answers[i], self.needs[i + 1])
    }

    /// The tree of blocks at moment `i`: the last one that the platform has handed in, or at first
    /// the one of `sync`. While a block is verified this is the tree that it is verified against.
    pub open spec fn chain_at(self, sync: OptimisticFullSync<P>, i: int) -> Chain<P>
        decreases i,
    {
        if i <= 0 {
            sync.state().chain
        } else {
            match self.answers[i - 1] {
                Answer::Outcome(Inner::Start(chain)) => chain,
                Answer::Outcome(inner) => match refused(inner) {
                    Some(chain) => chain,
                    None => self.chain_at(sync, i - 1),
                },
                _ => self.chain_at(sync, i - 1),
            }
        }
    }

    /// The code of the runtime that was handed to a verification last.
    pub open spec fn code_at(self, code_of: spec_fn(P::WasmVm) -> Seq<u8>, i: int) -> Seq<u8>
        decreases i,
    {
        match self.needs[i] {
            ProcessOne::Call(Call::Resume { runtime, .. }) => code_of(runtime),
            _ => if i <= 0 {
                Seq::empty()
            } else {
                self.code_at(code_of, i - 1)
            },
        }
    }

    /// The changes that a block makes which is to be inserted at moment `i`, if one is.
    pub open spec fn changes_at(self, i: int) -> Map<Seq<u8>, Option<Seq<u8>>> {
        match (self.needs[i], self.answers[i - 1]) {
            (
                ProcessOne::Call(Call::Insert { .. }),
                Answer::Outcome(
                    Inner::Step2(BodyVerifyStep2::Finished { storage_top_trie_changes, .. }),
                ),
            ) => storage_top_trie_changes@,
            _ => Map::empty(),
        }
    }

    /// The user answers with what is in the storage of the finalized block.
    pub open spec fn user_reads(self, finalized: Map<Seq<u8>, Seq<u8>>) -> bool {
        forall|i: int| #[trigger]
            self.answered(i) ==> match (self.needs[i], self.answers[i]) {
                (ProcessOne::FinalizedStorageGet(get), Answer::Value(value)) => value == lookup(
                    finalized,
                    get.key_pieces().flatten(),
                ),
                (ProcessOne::FinalizedStoragePrefixKeys(request), Answer::Keys(keys)) => keys
                    == keys_below(finalized, request.key_prefix()),
                _ => true,
            }
    }

    /// Compiled runtimes have the code that they were compiled from.
    pub open spec fn runtimes_have_their_code(self, code_of: spec_fn(P::WasmVm) -> Seq<u8>) -> bool {
        forall|i: int| #[trigger]
            self.answered(i) ==> match (self.needs[i], self.answers[i]) {
                (ProcessOne::Call(Call::Compile { code, .. }), Answer::Compiled(Ok(runtime))) => {
                    code_of(runtime) == code@
                },
                _ => true,
            }
    }

    /// A verification that is over gives back the runtime that it was handed.
    pub open spec fn runtimes_come_back(self, code_of: spec_fn(P::WasmVm) -> Seq<u8>) -> bool {
        forall|i: int| #[trigger]
            self.answered(i) ==> match self.answers[i] {
                Answer::Outcome(
                    Inner::Step2(BodyVerifyStep2::Finished { parent_runtime, .. }),
                ) => code_of(parent_runtime) == self.code_at(code_of, i),
                _ => true,
            }
    }

    /// Whatever tree the platform hands in has the same `property` as the one that it was given.
    pub open spec fn trees_keep<T>(
        self,
        sync: OptimisticFullSync<P>,
        property: spec_fn(Chain<P>) -> T,
    ) -> bool {
        forall|i: int| #[trigger]
            self.answered(i) ==> property(self.chain_at(sync, i + 1)) == property(
                self.chain_at(sync, i),
            )
    }

    /// An inserted block becomes the best one, and has the storage of the best block before it with
    /// its own changes made. Otherwise a tree that the platform hands in has the best block, and so
    /// the storage, of the one that it was given. `storage_of` tells the storage of the best block
    /// of a tree.
    pub open spec fn trees_follow_blocks(
        self,
        sync: OptimisticFullSync<P>,
        storage_of: spec_fn(P::Tree) -> Map<Seq<u8>, Seq<u8>>,
    ) -> bool {
        forall|i: int| #[trigger]
            self.answered(i) ==> storage_of(self.chain_at(sync, i + 1).tree) == changed(
                storage_of(self.chain_at(sync, i).tree),
                self.changes_at(i),
            )
    }
}

/// The changes in the storage of the best block in relation to the finalized block.
pub open spec fn diff_of<P: Platform>(process: ProcessOne<P>) -> Map<Seq<u8>, Option<Seq<u8>>> {
    match process {
        ProcessOne::Finished { sync } => sync.state().best_to_finalized_storage_diff@,
        ProcessOne::FinalizedStorageGet(get) => get.shared().best_to_finalized_storage_diff@,
        ProcessOne::FinalizedStoragePrefixKeys(keys) => {
            keys.shared().best_to_finalized_storage_diff@
        },
        ProcessOne::FinalizedStorageNextKey(next) => next.shared().best_to_finalized_storage_diff@,
        ProcessOne::Call(Call::TakeBlocks { state, .. }) => state.best_to_finalized_storage_diff@,
        ProcessOne::Call(Call::Reserve { shared, .. }) => shared.best_to_finalized_storage_diff@,
        ProcessOne::Call(Call::VerifyBody { shared, .. }) => shared.best_to_finalized_storage_diff@,
        ProcessOne::Call(Call::Compile { shared, .. }) => shared.best_to_finalized_storage_diff@,
        ProcessOne::Call(Call::Resume { shared, .. }) => shared.best_to_finalized_storage_diff@,
        ProcessOne::Call(Call::Insert { shared, .. }) => shared.best_to_finalized_storage_diff@,
        ProcessOne::Call(Call::InjectValue { shared, .. }) => {
            shared.best_to_finalized_storage_diff@
        },
        ProcessOne::Call(Call::InjectKeys { shared, .. }) => shared.best_to_finalized_storage_diff@,
        ProcessOne::Call(Call::InjectKey { shared, .. }) => shared.best_to_finalized_storage_diff@,
        ProcessOne::Call(Call::UpdateBlockHeight { state, .. }) => {
            state.best_to_finalized_storage_diff@
        },
        ProcessOne::Call(Call::ResetToFinalized { state, .. }) => {
            state.best_to_finalized_storage_diff@
        },
    }
}

/// What is known of the storage stays as it is, whatever is answered, unless a block has been
/// verified and found valid.
pub proof fn law_storage_changes_with_valid_blocks_only<P: Platform>(
    process: ProcessOne<P>,
    answer: Answer<P>,
    next: ProcessOne<P>,
)
    requires
        leads_to(process, answer, next),
        !(next matches ProcessOne::Call(call) && call is Insert),
    ensures
        diff_of(next) == diff_of(process),
{
}

/// The tree that the state machine itself holds, unless the platform has it.
pub open spec fn chain_of<P: Platform>(process: ProcessOne<P>) -> Option<Chain<P>> {
    match process {
        ProcessOne::Finished { sync } => Some(sync.state().chain),
        ProcessOne::Call(Call::TakeBlocks { state, .. }) => Some(state.chain),
        ProcessOne::Call(Call::Reserve { chain, .. }) => Some(chain),
        ProcessOne::Call(Call::VerifyBody { chain, .. }) => Some(chain),
        ProcessOne::Call(Call::UpdateBlockHeight { state, .. }) => Some(state.chain),
        ProcessOne::Call(Call::ResetToFinalized { state, .. }) => Some(state.chain),
        _ => None,
    }
}

/// The state machine holds the tree that the platform has handed in last, and none other. In the
/// end it is given back with that one.
pub proof fn law_last_tree_is_held<P: Platform>(run: Run<P>, sync: OptimisticFullSync<P>, i: int)
    requires
        run.starts_from(sync),
        0 <= i < run.needs.len(),
    ensures
        chain_of(run.needs[i]) matches Some(chain) ==> chain == run.chain_at(sync, i),
    decreases i,
{
    if i > 0 {
        law_last_tree_is_held(run, sync, i - 1);
        assert(run.answered(i - 1));
        assert(run.leads_on(i - 1));
    }
}

/// What every tree that the platform hands in has in common with the one that it was given, the
/// tree that comes back in the end has in common with the one at the start.
pub proof fn law_kept_property_stays<P: Platform, T>(
    run: Run<P>,
    sync: OptimisticFullSync<P>,
    property: spec_fn(Chain<P>) -> T,
    i: int,
)
    requires
        run.starts_from(sync),
        run.trees_keep(sync, property),
        0 <= i < run.needs.len(),
    ensures
        property(run.chain_at(sync, i)) == property(sync.state().chain),
        run.needs[i] matches ProcessOne::Finished { sync: back } ==> property(back.state().chain)
            == property(sync.state().chain),
    decreases i,
{
    law_last_tree_is_held(run, sync, i);
    if i > 0 {
        law_kept_property_stays(run, sync, property, i - 1);
        assert(run.answered(i - 1));
    }
}

/// Processing blocks does not move the finalized block, whatever is answered and whether blocks are
/// refused or not: if the platform does not move it in the trees that it hands in, the state
/// machine comes back with the finalized block that it had.
pub proof fn law_finalized_block_stays<P: Platform>(
    run: Run<P>,
    sync: OptimisticFullSync<P>,
    back: OptimisticFullSync<P>,
)
    requires
        run.starts_from(sync),
        run.trees_keep(sync, |chain: Chain<P>| chain.finalized_block_number),
        run.needs.last() == (ProcessOne::Finished { sync: back }),
    ensures
        back.state().chain.finalized_block_number == sync.state().chain.finalized_block_number,
{
    law_kept_property_stays(
        run,
        sync,
        |chain: Chain<P>| chain.finalized_block_number,
        run.needs.len() - 1,
    );
}

/// The information about the chain up to the finalized block that the state machine gives out is
/// the same after a run as before, whatever is answered, if it is the same in the trees that the
/// platform hands in. `information_of` tells the information that a tree holds.
pub proof fn law_chain_information_stays<P: Platform, T>(
    run: Run<P>,
    sync: OptimisticFullSync<P>,
    back: OptimisticFullSync<P>,
    information_of: spec_fn(P::Tree) -> T,
)
    requires
        run.starts_from(sync),
        run.trees_keep(sync, |chain: Chain<P>| information_of(chain.tree)),
        run.needs.last() == (ProcessOne::Finished { sync: back }),
    ensures
        information_of(back.state().chain.tree) == information_of(sync.state().chain.tree),
{
    law_kept_property_stays(
        run,
        sync,
        |chain: Chain<P>| information_of(chain.tree),
        run.needs.len() - 1,
    );
}

/// At every moment of a run the diff describes the best block: made to the storage of the finalized
/// block, its changes give the storage of the best block of the tree. While a block waits to be
/// inserted, its own changes are in the diff already.
pub proof fn law_diff_describes_best_block<P: Platform>(
    run: Run<P>,
    sync: OptimisticFullSync<P>,
    finalized: Map<Seq<u8>, Seq<u8>>,
    storage_of: spec_fn(P::Tree) -> Map<Seq<u8>, Seq<u8>>,
    i: int,
)
    requires
        run.starts_from(sync),
        run.trees_follow_blocks(sync, storage_of),
        storage_of(sync.state().chain.tree) == changed(
            finalized,
            sync.state().best_to_finalized_storage_diff@,
        ),
        0 <= i < run.needs.len(),
    ensures
        changed(storage_of(run.chain_at(sync, i).tree), run.changes_at(i)) == changed(
            finalized,
            diff_of(run.needs[i]),
        ),
        !(run.needs[i] matches ProcessOne::Call(call) && call is Insert) ==> storage_of(
            run.chain_at(sync, i).tree,
        ) == changed(finalized, diff_of(run.needs[i])),
        run.needs[i] matches ProcessOne::Finished { sync: back } ==> storage_of(
            back.state().chain.tree,
        ) == changed(finalized, back.state().best_to_finalized_storage_diff@),
    decreases i,
{
    law_last_tree_is_held(run, sync, i);
    lemma_no_changes(storage_of(run.chain_at(sync, i).tree));
    if i > 0 {
        law_diff_describes_best_block(run, sync, finalized, storage_of, i - 1);
        assert(run.answered(i - 1));
        assert(run.leads_on(i - 1));
        let before = diff_of(run.needs[i - 1]);
        law_diffs_compose(finalized, before, run.changes_at(i));
        if run.needs[i] matches ProcessOne::Call(call) && call is Insert {
            lemma_no_changes(storage_of(run.chain_at(sync, i - 1).tree));
        } else {
            law_storage_changes_with_valid_blocks_only(
                run.needs[i - 1],
                run.answers[i - 1],
                run.needs[i],
            );
        }
    }
}

/// Every value that a verification is handed in a run is that of the best block of the tree that
/// the block is verified against, under the key that the verification asked for. It comes from the
/// diff, or from a user who answers with what is in the storage of the finalized block.
pub proof fn law_value_is_that_of_tree<P: Platform>(
    run: Run<P>,
    sync: OptimisticFullSync<P>,
    finalized: Map<Seq<u8>, Seq<u8>>,
    storage_of: spec_fn(P::Tree) -> Map<Seq<u8>, Seq<u8>>,
    i: int,
)
    requires
        run.starts_from(sync),
        run.trees_follow_blocks(sync, storage_of),
        run.user_reads(finalized),
        storage_of(sync.state().chain.tree) == changed(
            finalized,
            sync.state().best_to_finalized_storage_diff@,
        ),
        0 < i < run.needs.len(),
    ensures
        run.needs[i] matches ProcessOne::Call(Call::InjectValue { value, .. }) ==> match (
            run.needs[i - 1],
            run.answers[i - 1],
        ) {
            (
                ProcessOne::Call(_),
                Answer::Outcome(Inner::Step2(BodyVerifyStep2::StorageGet { key, .. })),
            ) => value.deep_view() == lookup(
                storage_of(run.chain_at(sync, i).tree),
                key.deep_view().flatten(),
            ),
            (ProcessOne::FinalizedStorageGet(get), _) => value.deep_view() == lookup(
                storage_of(run.chain_at(sync, i).tree),
                get.key_pieces().flatten(),
            ),
            _ => false,
        },
{
    law_diff_describes_best_block(run, sync, finalized, storage_of, i);
    assert(run.answered(i - 1));
    assert(run.leads_on(i - 1));
    if i > 1 {
        assert(run.answered(i - 2));
        assert(run.leads_on(i - 2));
    }
}

/// Every list of keys that a verification is handed in a run is that of the keys of the best block
/// of the tree that the block is verified against, each once, under the prefix that the verification
/// asked for, if the user answers with the keys of the finalized block.
pub proof fn law_keys_are_those_of_tree<P: Platform>(
    run: Run<P>,
    sync: OptimisticFullSync<P>,
    finalized: Map<Seq<u8>, Seq<u8>>,
    storage_of: spec_fn(P::Tree) -> Map<Seq<u8>, Seq<u8>>,
    i: int,
)
    requires
        run.starts_from(sync),
        run.trees_follow_blocks(sync, storage_of),
        run.user_reads(finalized),
        storage_of(sync.state().chain.tree) == changed(
            finalized,
            sync.state().best_to_finalized_storage_diff@,
        ),
        0 < i < run.needs.len(),
    ensures
        run.needs[i] matches ProcessOne::Call(Call::InjectKeys { req: waiting, keys, .. }) ==> {
            &&& i >= 2
            &&& run.answers[i - 2] matches Answer::Outcome(
                Inner::Step2(BodyVerifyStep2::StoragePrefixKeys { req, prefix }),
            )
            &&& waiting == req
            &&& keys.deep_view().no_duplicates()
            &&& keys.deep_view().to_set() == keys_below(
                storage_of(run.chain_at(sync, i).tree),
                prefix@,
            )
        },
{
    law_diff_describes_best_block(run, sync, finalized, storage_of, i);
    assert(run.answered(i - 1));
    assert(run.leads_on(i - 1));
    if i > 1 {
        assert(run.answered(i - 2));
        assert(run.leads_on(i - 2));
        if let ProcessOne::FinalizedStoragePrefixKeys(request) = run.needs[i - 1] {
            assert(keys_through(
                keys_below(finalized, request.key_prefix()),
                request.shared().best_to_finalized_storage_diff@,
                request.key_prefix(),
            ) =~= keys_below(best_storage(finalized, request.shared()), request.key_prefix()));
        }
    }
}

/// A storage to which no changes are made stays as it is.
proof fn lemma_no_changes(storage: Map<Seq<u8>, Seq<u8>>)
    ensures
        changed(storage, Map::empty()) == storage,
{
    assert(changed(storage, Map::empty()) =~= storage);
}

/// What is kept while a verification runs with a runtime, if one does.
pub open spec fn running<P: Platform>(process: ProcessOne<P>) -> Option<ProcessOneShared<P>> {
    match process {
        ProcessOne::FinalizedStorageGet(get) => if get.target() is Storage {
            Some(get.shared())
        } else {
            None
        },
        ProcessOne::FinalizedStoragePrefixKeys(keys) => Some(keys.shared()),
        ProcessOne::FinalizedStorageNextKey(next) => Some(next.shared()),
        ProcessOne::Call(Call::InjectValue { shared, .. }) => Some(shared),
        ProcessOne::Call(Call::InjectKeys { shared, .. }) => Some(shared),
        ProcessOne::Call(Call::InjectKey { shared, .. }) => Some(shared),
        _ => None,
    }
}

/// However long a run is, every verification runs with the runtime of the best block, the user is
/// only asked for values that are the same in the best block, and the state machine that comes back
/// has a valid cache: if it had one at the start, the user answers with what is in the storage of
/// the finalized block, compiled runtimes have the code that they were compiled from, and a
/// verification gives back the runtime that it was handed.
pub proof fn law_processing_stays_valid<P: Platform>(
    run: Run<P>,
    sync: OptimisticFullSync<P>,
    finalized: Map<Seq<u8>, Seq<u8>>,
    code_of: spec_fn(P::WasmVm) -> Seq<u8>,
    i: int,
)
    requires
        run.starts_from(sync),
        run.user_reads(finalized),
        run.runtimes_have_their_code(code_of),
        run.runtimes_come_back(code_of),
        state_is_valid(sync.state(), finalized, code_of),
        0 <= i < run.needs.len(),
    ensures
        is_valid(run.needs[i], finalized, code_of),
        running(run.needs[i]) matches Some(shared) ==> lookup(
            best_storage(finalized, shared),
            code_key(),
        ) == Some(run.code_at(code_of, i)),
    decreases i,
{
    reveal_with_fuel(Run::code_at, 2);
    if i > 0 {
        law_processing_stays_valid(run, sync, finalized, code_of, i - 1);
        assert(run.answered(i - 1));
        assert(run.leads_on(i - 1));
        let process = run.needs[i - 1];
        let next = run.needs[i];
        match (process, run.answers[i - 1]) {
            (ProcessOne::FinalizedStorageGet(get), _) => {
                law_value_of_user_keeps_valid(get, next, finalized, code_of);
            },
            (ProcessOne::Call(Call::Reserve { shared, .. }), Answer::Outcome(inner)) => {
                law_platform_keeps_valid(inner, shared, next, finalized, code_of);
            },
            (ProcessOne::Call(Call::VerifyBody { shared, .. }), Answer::Outcome(inner)) => {
                law_platform_keeps_valid(inner, shared, next, finalized, code_of);
            },
            (ProcessOne::Call(Call::Resume { shared, .. }), Answer::Outcome(inner)) => {
                law_platform_keeps_valid(inner, shared, next, finalized, code_of);
            },
            (ProcessOne::Call(Call::Insert { shared, .. }), Answer::Outcome(inner)) => {
                law_platform_keeps_valid(inner, shared, next, finalized, code_of);
            },
            (ProcessOne::Call(Call::InjectValue { shared, .. }), Answer::Outcome(inner)) => {
                law_platform_keeps_valid(inner, shared, next, finalized, code_of);
            },
            (ProcessOne::Call(Call::InjectKeys { shared, .. }), Answer::Outcome(inner)) => {
                law_platform_keeps_valid(inner, shared, next, finalized, code_of);
            },
            (ProcessOne::Call(Call::InjectKey { shared, .. }), Answer::Outcome(inner)) => {
                law_platform_keeps_valid(inner, shared, next, finalized, code_of);
            },
            _ => {},
        }
    }
}

/// What is kept while a verification has the runtime or awaits it.
pub open spec fn lent<P: Platform>(process: ProcessOne<P>) -> Option<ProcessOneShared<P>> {
    match process {
        ProcessOne::FinalizedStorageGet(get) => Some(get.shared()),
        ProcessOne::Call(Call::Compile { shared, .. }) => Some(shared),
        ProcessOne::Call(Call::Resume { shared, .. }) => Some(shared),
        _ => running(process),
    }
}

/// The cache is empty while a verification has the runtime or awaits it, whatever is answered.
pub proof fn law_lent_cache_is_empty<P: Platform>(run: Run<P>, sync: OptimisticFullSync<P>, i: int)
    requires
        run.starts_from(sync),
        0 <= i < run.needs.len(),
    ensures
        lent(run.needs[i]) matches Some(shared) ==> shared.runtime_code_cache is None,
    decreases i,
{
    if i > 0 {
        law_lent_cache_is_empty(run, sync, i - 1);
        assert(run.answered(i - 1));
        assert(run.leads_on(i - 1));
    }
}

/// A block is to be verified.
pub open spec fn is_verification<P: Platform>(process: ProcessOne<P>) -> bool {
    process matches ProcessOne::Call(call) && call is VerifyBody
}

/// A block is to be inserted.
pub open spec fn is_insertion<P: Platform>(process: ProcessOne<P>) -> bool {
    process matches ProcessOne::Call(call) && call is Insert
}

/// The scheduler is to be told how the processing went.
pub open spec fn is_report<P: Platform>(process: ProcessOne<P>) -> bool {
    process matches ProcessOne::Call(call) && (call is UpdateBlockHeight || call is ResetToFinalized)
}

impl<P: Platform> Run<P> {
    /// The scheduler gives out `chunk` to process.
    pub open spec fn processes(self, chunk: ToProcess<P>) -> bool {
        &&& self.answers.len() > 0
        &&& self.answers[0] == Answer::<P>::Blocks(Ok(chunk))
    }

    /// Number of blocks that have been handed to verification up to moment `i`.
    pub open spec fn verifications(self, i: int) -> nat
        decreases i + 1,
    {
        if i < 0 {
            0
        } else {
            self.verifications(i - 1) + if is_verification(self.needs[i]) {
                1nat
            } else {
                0nat
            }
        }
    }

    /// Number of blocks that have been handed to the tree to be inserted up to moment `i`.
    pub open spec fn insertions(self, i: int) -> nat
        decreases i + 1,
    {
        if i < 0 {
            0
        } else {
            self.insertions(i - 1) + if is_insertion(self.needs[i]) {
                1nat
            } else {
                0nat
            }
        }
    }
}

/// Where the processing of a chunk stands at moment `i`.
spec fn progress<P: Platform>(run: Run<P>, chunk: ToProcess<P>, i: int) -> bool {
    let blocks = chunk.blocks@;
    let v = run.verifications(i);
    let n = run.insertions(i);
    &&& v <= blocks.len()
    &&& left_to_process(run.needs[i]) matches Some(left) ==> left.report == chunk.report
        && left.blocks@ == blocks.skip(v as int)
    &&& match run.needs[i] {
        ProcessOne::Call(Call::TakeBlocks { .. }) => false,
        ProcessOne::Call(Call::Reserve { .. }) => v == 0 && n == 0,
        ProcessOne::Call(
            Call::VerifyBody { scale_encoded_header, scale_encoded_extrinsics, .. },
        ) => {
            &&& v == n + 1
            &&& scale_encoded_header == blocks[n as int].scale_encoded_header
            &&& scale_encoded_extrinsics == blocks[n as int].scale_encoded_extrinsics
        },
        ProcessOne::Call(Call::Insert { .. }) => v == n,
        ProcessOne::Call(Call::UpdateBlockHeight { report, height, state }) => {
            &&& v == n == blocks.len()
            &&& report == chunk.report
            &&& height == state.chain.best_block_number
        },
        ProcessOne::Call(Call::ResetToFinalized { report, height, state }) => {
            &&& v == n + 1
            &&& report == chunk.report
            &&& height == state.chain.finalized_block_number
        },
        ProcessOne::Finished { .. } => v == n == blocks.len() || v == n + 1,
        _ => v == n + 1,
    }
}

/// The progress follows from moment to moment.
proof fn lemma_progress<P: Platform>(
    run: Run<P>,
    sync: OptimisticFullSync<P>,
    chunk: ToProcess<P>,
    i: int,
)
    requires
        run.starts_from(sync),
        run.processes(chunk),
        0 < i < run.needs.len(),
    ensures
        progress(run, chunk, i),
    decreases i,
{
    assert(run.answered(i - 1));
    assert(run.leads_on(i - 1));
    if i == 1 {
        reveal_with_fuel(Run::verifications, 3);
        reveal_with_fuel(Run::insertions, 3);
        assert(chunk.blocks@.skip(0) =~= chunk.blocks@);
    } else {
        lemma_progress(run, sync, chunk, i - 1);
        let v = run.verifications(i - 1) as int;
        if v < chunk.blocks@.len() {
            assert(chunk.blocks@.skip(v + 1) =~= chunk.blocks@.skip(v).drop_first());
        }
    }
}

/// The blocks of a chunk are handed to verification in their order, none left out and none twice,
/// each when all before it have been inserted. What is left to process is always what comes after
/// the last of them.
pub proof fn law_blocks_are_verified_in_order<P: Platform>(
    run: Run<P>,
    sync: OptimisticFullSync<P>,
    chunk: ToProcess<P>,
    i: int,
)
    requires
        run.starts_from(sync),
        run.processes(chunk),
        0 < i < run.needs.len(),
    ensures
        run.verifications(i) <= chunk.blocks@.len(),
        left_to_process(run.needs[i]) matches Some(left) ==> left.report == chunk.report
            && left.blocks@ == chunk.blocks@.skip(run.verifications(i) as int),
        run.needs[i] matches ProcessOne::Call(
            Call::VerifyBody { chain, scale_encoded_header, scale_encoded_extrinsics, .. },
        ) ==> {
            let n = run.insertions(i);
            &&& run.verifications(i) == n + 1
            &&& chain == run.chain_at(sync, i)
            &&& scale_encoded_header == chunk.blocks@[n as int].scale_encoded_header
            &&& scale_encoded_extrinsics == chunk.blocks@[n as int].scale_encoded_extrinsics
        },
{
    lemma_progress(run, sync, chunk, i);
    law_last_tree_is_held(run, sync, i);
}

/// A block is handed to the tree to be inserted exactly when its verification has ended well.
pub proof fn law_valid_blocks_are_inserted<P: Platform>(
    run: Run<P>,
    sync: OptimisticFullSync<P>,
    i: int,
)
    requires
        run.starts_from(sync),
        run.answered(i),
    ensures
        is_insertion(run.needs[i + 1]) <==> (run.answers[i] matches Answer::Outcome(
            Inner::Step2(BodyVerifyStep2::Finished { result, .. }),
        ) && result is Ok),
        run.answers[i] matches Answer::Outcome(
            Inner::Step2(BodyVerifyStep2::Finished { result: Ok(valid), .. }),
        ) ==> (run.needs[i + 1] matches ProcessOne::Call(Call::Insert { verified, .. }) && verified
            == valid),
{
    assert(run.leads_on(i));
}

/// A refused block ends the run. The scheduler is told to start again from the finalized block, and
/// nothing is needed after that: the state machine comes back with the tree that the block was
/// refused with.
pub proof fn law_refused_block_ends_run<P: Platform>(
    run: Run<P>,
    sync: OptimisticFullSync<P>,
    inner: Inner<P>,
    i: int,
)
    requires
        run.starts_from(sync),
        run.answered(i),
        run.answers[i] == Answer::Outcome(inner),
        refused(inner) is Some,
    ensures
        run.needs[i + 1] matches ProcessOne::Call(Call::ResetToFinalized { height, .. }) && height
            == refused(inner)->0.finalized_block_number,
        run.needs.len() <= i + 3,
        run.needs.len() == i + 3 ==> (run.needs[i + 2] matches ProcessOne::Finished { sync: back }
            && back.state().chain == refused(inner)->0),
{
    assert(run.leads_on(i));
    lemma_report_is_last(run, sync, i + 1);
}

/// After a report the state machine comes back, and the run is over.
proof fn lemma_report_is_last<P: Platform>(run: Run<P>, sync: OptimisticFullSync<P>, i: int)
    requires
        run.starts_from(sync),
        0 <= i < run.needs.len(),
        is_report(run.needs[i]),
    ensures
        run.needs.len() <= i + 2,
        run.answered(i) ==> run.leads_on(i) && run.needs[i + 1] is Finished,
{
    if run.answered(i) {
        assert(run.leads_on(i));
        if run.answered(i + 1) {
            assert(run.leads_on(i + 1));
        }
    }
}

/// The scheduler gets one report on a chunk, and no chunk ends without: that the blocks are
/// processed, with the number of the best block, if all of them have been inserted, and otherwise
/// that it has to start again, with the number of the finalized block.
pub proof fn law_chunk_is_reported_once<P: Platform>(
    run: Run<P>,
    sync: OptimisticFullSync<P>,
    chunk: ToProcess<P>,
    i: int,
)
    requires
        run.starts_from(sync),
        run.processes(chunk),
        0 <= i < run.needs.len(),
    ensures
        run.needs[i] matches ProcessOne::Call(Call::UpdateBlockHeight { report, height, .. }) ==> {
            &&& report == chunk.report
            &&& height == run.chain_at(sync, i).best_block_number
            &&& run.insertions(i) == chunk.blocks@.len()
        },
        run.needs[i] matches ProcessOne::Call(Call::ResetToFinalized { report, height, .. }) ==> {
            &&& report == chunk.report
            &&& height == run.chain_at(sync, i).finalized_block_number
            &&& run.insertions(i) < chunk.blocks@.len()
        },
        is_report(run.needs[i]) ==> forall|j: int|
            0 <= j < run.needs.len() && is_report(#[trigger] run.needs[j]) ==> j == i,
        run.needs[i] is Finished ==> i >= 2 && is_report(run.needs[i - 1]),
{
    law_last_tree_is_held(run, sync, i);
    if i > 0 {
        lemma_progress(run, sync, chunk, i);
        assert(run.answered(i - 1));
        assert(run.leads_on(i - 1));
        if i > 1 {
            lemma_progress(run, sync, chunk, i - 1);
        }
    }
    if is_report(run.needs[i]) {
        assert forall|j: int|
            0 <= j < run.needs.len() && is_report(#[trigger] run.needs[j]) implies j == i by {
            lemma_report_is_last(run, sync, i);
            lemma_report_is_last(run, sync, j);
        }
    }
}

/// The scheduler is told to start again only if the answer just before has refused a block: its
/// header, as known already, for its parent, or after its verification.
pub proof fn law_only_refusal_ends_run_early<P: Platform>(
    run: Run<P>,
    sync: OptimisticFullSync<P>,
    i: int,
)
    requires
        run.starts_from(sync),
        run.answered(i),
        run.needs[i + 1] matches ProcessOne::Call(call) && call is ResetToFinalized,
    ensures
        (run.answers[i] matches Answer::Outcome(Inner::Step1(step)) && !(step
            is ParentRuntimeRequired)) || (run.answers[i] matches Answer::Outcome(
            Inner::Step2(BodyVerifyStep2::Finished { result, .. }),
        ) && result is Err),
{
    assert(run.leads_on(i));
}

/// In a run, a block that is left when the tree has been handed in is the next to be verified, and
/// nothing else is needed before.
pub proof fn law_left_block_is_next<P: Platform>(
    run: Run<P>,
    sync: OptimisticFullSync<P>,
    i: int,
)
    requires
        run.starts_from(sync),
        run.answered(i),
        run.answers[i] matches Answer::Outcome(inner) && inner is Start,
        left_to_process(run.needs[i]) matches Some(left) && left.blocks@.len() > 0,
    ensures
        left_to_process(run.needs[i]) matches Some(left) && (run.needs[i + 1]
            matches ProcessOne::Call(
            Call::VerifyBody { scale_encoded_header, scale_encoded_extrinsics, .. },
        ) && scale_encoded_header == left.blocks@[0].scale_encoded_header
            && scale_encoded_extrinsics == left.blocks@[0].scale_encoded_extrinsics),
{
    assert(run.leads_on(i));
}

/// A question for a value is never directly followed by another one: the answer is compiled if it is
/// the code of a runtime, and handed to the verification otherwise.
pub proof fn law_value_question_is_not_repeated<P: Platform>(
    run: Run<P>,
    sync: OptimisticFullSync<P>,
    i: int,
)
    requires
        run.starts_from(sync),
        run.answered(i),
        run.needs[i] is FinalizedStorageGet,
    ensures
        run.needs[i + 1] matches ProcessOne::Call(call) && (call is Compile || call is InjectValue),
        run.answers[i] matches Answer::Value(value) && match run.needs[i + 1] {
            ProcessOne::Call(Call::Compile { code, .. }) => value == Some(code@),
            ProcessOne::Call(Call::InjectValue { value: handed, .. }) => handed.deep_view() == value,
            _ => false,
        },
{
    assert(run.leads_on(i));
}

/// The code of a runtime is needed: to be compiled, or from the user.
pub open spec fn needs_code<P: Platform>(process: ProcessOne<P>) -> bool {
    ||| process matches ProcessOne::Call(call) && call is Compile
    ||| process matches ProcessOne::FinalizedStorageGet(get) && get.target() is Runtime
}

/// A block has been found valid that changes the code.
pub open spec fn changes_code<P: Platform>(answer: Answer<P>) -> bool {
    answer matches Answer::Outcome(
        Inner::Step2(BodyVerifyStep2::Finished { storage_top_trie_changes, result, .. }),
    ) && result is Ok && storage_top_trie_changes@.contains_key(code_key())
}

/// A runtime is at hand: in the cache, or with the verification that runs.
spec fn has_runtime<P: Platform>(process: ProcessOne<P>) -> bool {
    match process {
        ProcessOne::Call(Call::TakeBlocks { .. }) => false,
        ProcessOne::Call(Call::Reserve { .. }) => false,
        ProcessOne::Call(Call::VerifyBody { shared, .. }) => shared.runtime_code_cache is Some,
        ProcessOne::Call(Call::Insert { shared, .. }) => shared.runtime_code_cache is Some,
        _ => !needs_code(process),
    }
}

/// Once a runtime is at hand it stays so, unless the code changes.
proof fn lemma_runtime_stays<P: Platform>(
    run: Run<P>,
    sync: OptimisticFullSync<P>,
    i: int,
    j: int,
)
    requires
        run.starts_from(sync),
        0 <= i <= j < run.needs.len(),
        has_runtime(run.needs[i]),
        forall|k: int| i <= k < j ==> !changes_code(#[trigger] run.answers[k]),
    ensures
        has_runtime(run.needs[j]),
    decreases j,
{
    if i < j {
        lemma_runtime_stays(run, sync, i, j - 1);
        assert(run.answered(j - 1));
        assert(run.leads_on(j - 1));
        assert(!changes_code(run.answers[j - 1]));
    }
}

/// Code is compiled once, however many blocks there are: if it is needed again after that, from the
/// user or to be compiled, a block in between has changed it.
pub proof fn law_code_is_compiled_once<P: Platform>(
    run: Run<P>,
    sync: OptimisticFullSync<P>,
    i: int,
    j: int,
)
    requires
        run.starts_from(sync),
        0 <= i < j < run.needs.len(),
        run.needs[i] matches ProcessOne::Call(call) && call is Compile,
        needs_code(run.needs[j]),
    ensures
        exists|k: int| i < k < j && changes_code(#[trigger] run.answers[k]),
{
    assert(run.answered(i));
    assert(run.leads_on(i));
    if forall|k: int| i + 1 <= k < j ==> !changes_code(#[trigger] run.answers[k]) {
        lemma_runtime_stays(run, sync, i + 1, j);
    }
}

/// The user is asked for the code once: a second time only if a block in between has changed it.
pub proof fn law_code_is_asked_for_once<P: Platform>(
    run: Run<P>,
    sync: OptimisticFullSync<P>,
    i: int,
    j: int,
)
    requires
        run.starts_from(sync),
        0 <= i < j < run.needs.len(),
        run.needs[i] matches ProcessOne::FinalizedStorageGet(get) && get.target() is Runtime,
        run.needs[j] matches ProcessOne::FinalizedStorageGet(get) && get.target() is Runtime,
    ensures
        exists|k: int| i < k < j && changes_code(#[trigger] run.answers[k]),
{
    assert(run.answered(i));
    assert(run.leads_on(i));
    law_code_is_compiled_once(run, sync, i + 1, j);
}

/// A runtime that is in the cache is not needed again: no block that is verified then has its
/// runtime compiled or asked for, as long as no block changes the code.
pub proof fn law_cached_runtime_saves_code<P: Platform>(
    run: Run<P>,
    sync: OptimisticFullSync<P>,
    i: int,
    j: int,
)
    requires
        run.starts_from(sync),
        0 <= i <= j < run.needs.len(),
        run.needs[i] matches ProcessOne::Call(Call::VerifyBody { shared, .. })
            && shared.runtime_code_cache is Some,
        forall|k: int| i <= k < j ==> !changes_code(#[trigger] run.answers[k]),
    ensures
        !needs_code(run.needs[j]),
{
    lemma_runtime_stays(run, sync, i, j);
}

/// A block on a tree whose best block has code can be verified, whatever comes of its first step.
pub proof fn law_tree_with_code_goes_on<P: Platform>(
    run: Run<P>,
    sync: OptimisticFullSync<P>,
    finalized: Map<Seq<u8>, Seq<u8>>,
    storage_of: spec_fn(P::Tree) -> Map<Seq<u8>, Seq<u8>>,
    i: int,
    inner: Inner<P>,
    shared: ProcessOneShared<P>,
    result: bool,
)
    requires
        run.starts_from(sync),
        run.trees_follow_blocks(sync, storage_of),
        storage_of(sync.state().chain.tree) == changed(
            finalized,
            sync.state().best_to_finalized_storage_diff@,
        ),
        0 <= i < run.needs.len(),
        run.needs[i] matches ProcessOne::Call(Call::VerifyBody { shared: kept, .. }) && kept == shared,
        storage_of(run.chain_at(sync, i).tree).contains_key(code_key()),
        call_ensures(ProcessOne::<P>::can_continue, (&inner, &shared), result),
    ensures
        result,
        call_requires(ProcessOne::<P>::from, (inner, shared)),
{
    law_diff_describes_best_block(run, sync, finalized, storage_of, i);
}

/// What the operations return is what a run goes on with: each call of an operation on what is
/// needed, with an answer to it, leads to what the operation returns.
pub proof fn law_operations_lead_on<P: Platform>(
    get: StorageGet<P>,
    value: Option<&[u8]>,
    prefix_keys: StoragePrefixKeys<P>,
    keys: Vec<Vec<u8>>,
    next_key: StorageNextKey<P>,
    key: Option<&[u8]>,
    call: Call<P>,
    blocks: Result<ToProcess<P>, P::Sync>,
    runtime: P::WasmVm,
    inner: Inner<P>,
    scheduler: P::Sync,
    next: ProcessOne<P>,
)
    ensures
        call_ensures(StorageGet::<P>::inject_value, (get, value), next) ==> leads_to(
            ProcessOne::FinalizedStorageGet(get),
            Answer::Value(value.deep_view()),
            next,
        ),
        call_ensures(StoragePrefixKeys::<P>::inject_keys, (prefix_keys, keys), next) ==> leads_to(
            ProcessOne::FinalizedStoragePrefixKeys(prefix_keys),
            Answer::Keys(keys.deep_view().to_set()),
            next,
        ),
        call_ensures(StorageNextKey::<P>::inject_key, (next_key, key), next) ==> leads_to(
            ProcessOne::FinalizedStorageNextKey(next_key),
            Answer::NextKey(key.deep_view()),
            next,
        ),
        match call {
            Call::TakeBlocks { state, .. } => call_ensures(
                ChainState::<P>::blocks_taken,
                (state, blocks),
                next,
            ) ==> leads_to(ProcessOne::Call(call), Answer::Blocks(blocks), next),
            Call::Compile { req, shared, .. } => call_ensures(
                ProcessOne::<P>::compiled,
                (req, Ok::<P::WasmVm, P::CompileError>(runtime), shared),
                next,
            ) ==> leads_to(ProcessOne::Call(call), Answer::Compiled(Ok(runtime)), next),
            Call::UpdateBlockHeight { state, .. } => call_ensures(
                ChainState::<P>::finish,
                (state, scheduler),
                next,
            ) ==> leads_to(ProcessOne::Call(call), Answer::Reported(scheduler), next),
            Call::ResetToFinalized { state, .. } => call_ensures(
                ChainState::<P>::finish,
                (state, scheduler),
                next,
            ) ==> leads_to(ProcessOne::Call(call), Answer::Reported(scheduler), next),
            Call::Reserve { shared, .. } => inner is Start && call_ensures(
                ProcessOne::<P>::from,
                (inner, shared),
                next,
            ) ==> leads_to(ProcessOne::Call(call), Answer::Outcome(inner), next),
            Call::Insert { shared, .. } => inner is Start && call_ensures(
                ProcessOne::<P>::from,
                (inner, shared),
                next,
            ) ==> leads_to(ProcessOne::Call(call), Answer::Outcome(inner), next),
            Call::VerifyBody { shared, .. } => inner is Step1 && call_ensures(
                ProcessOne::<P>::from,
                (inner, shared),
                next,
            ) ==> leads_to(ProcessOne::Call(call), Answer::Outcome(inner), next),
            Call::Resume { shared, .. } => inner is Step2 && call_ensures(
                ProcessOne::<P>::from,
                (inner, shared),
                next,
            ) ==> leads_to(ProcessOne::Call(call), Answer::Outcome(inner), next),
            Call::InjectValue { shared, .. } => inner is Step2 && call_ensures(
                ProcessOne::<P>::from,
                (inner, shared),
                next,
            ) ==> leads_to(ProcessOne::Call(call), Answer::Outcome(inner), next),
            Call::InjectKeys { shared, .. } => inner is Step2 && call_ensures(
                ProcessOne::<P>::from,
                (inner, shared),
                next,
            ) ==> leads_to(ProcessOne::Call(call), Answer::Outcome(inner), next),
            Call::InjectKey { shared, .. } => inner is Step2 && call_ensures(
                ProcessOne::<P>::from,
                (inner, shared),
                next,
            ) ==> leads_to(ProcessOne::Call(call), Answer::Outcome(inner), next),
        },
{
}

} // verus!
