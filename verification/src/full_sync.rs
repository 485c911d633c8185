//! Optimistic syncing of block headers and bodies.
use vstd::prelude::*;

use crate::config::{Config, SyncConfig, TreeConfig};
use crate::platform::{Chain, Platform};
use crate::process::{Call, ProcessOne, ProcessOneShared, RequestSuccessBlock, ToProcess};
use crate::storage_diff::StorageDiff;

verus! {

/// The state of an [`OptimisticFullSync`] apart from its scheduler.
pub struct ChainState<P: Platform> {
    /// The blocks that are known so far.
    pub chain: Chain<P>,

    /// Changes in the storage of the best block in relation to the finalized block.
    pub best_to_finalized_storage_diff: StorageDiff,

    /// Compiled runtime of the best block. It is a cache, and empty until the runtime is needed
    /// for the first time.
    pub runtime_code_cache: Option<P::WasmVm>,
}

/// Optimistic syncing of headers and bodies.
///
/// Builds, from a set of sources, a verified chain of block headers and bodies. Whoever uses it
/// also has to hold the storage of the latest finalized block.
pub struct OptimisticFullSync<P: Platform> {
    /// The chain and what is kept about its best block.
    state: ChainState<P>,

    /// Manages sources and requests.
    sync: P::Sync,
}

impl<P: Platform> OptimisticFullSync<P> {
    /// The chain and what is kept about its best block.
    pub closed spec fn state(&self) -> ChainState<P> {
        self.state
    }

    /// The scheduler of sources and requests.
    pub closed spec fn sync(&self) -> P::Sync {
        self.sync
    }

    /// Builds a new [`OptimisticFullSync`], with `new_tree` to build the tree of blocks and
    /// `new_sync` to build the scheduler.
    pub fn new<TTree, TSync>(config: Config<P>, new_tree: TTree, new_sync: TSync) -> (sync: Self)
        where TTree: FnOnce(TreeConfig<P>) -> Chain<P>, TSync: FnOnce(SyncConfig) -> P::Sync
        requires
            new_tree.requires((config.tree_config(),)),
            forall|chain: Chain<P>| #[trigger]
                new_tree.ensures((config.tree_config(),), chain) ==> new_sync.requires(
                    (config.sync_config(chain.best_block_number),),
                ),
        ensures
            new_tree.ensures((config.tree_config(),), sync.state().chain),
            new_sync.ensures(
                (config.sync_config(sync.state().chain.best_block_number),),
                sync.sync(),
            ),
            sync.state().best_to_finalized_storage_diff@ == Map::<
                Seq<u8>,
                Option<Seq<u8>>,
            >::empty(),
            sync.state().runtime_code_cache is None,
    {
        let chain = new_tree(
            TreeConfig {
                chain_information: config.chain_information,
                babe_genesis_config: config.babe_genesis_config,
                blocks_capacity: config.blocks_capacity,
            },
        );
        let sync = new_sync(
            SyncConfig {
                best_block_number: chain.best_block_number,
                sources_capacity: config.sources_capacity,
                blocks_request_granularity: config.blocks_request_granularity,
                download_ahead_blocks: config.download_ahead_blocks,
                source_selection_randomness_seed: config.source_selection_randomness_seed,
            },
        );
        OptimisticFullSync {
            state: ChainState {
                chain,
                best_to_finalized_storage_diff: StorageDiff::new(),
                runtime_code_cache: None,
            },
            sync,
        }
    }

    /// Builds the information about the chain up to the latest finalized block, with `build` to read
    /// it from the tree. A chain can be built from it again later.
    pub fn as_chain_information<'a, TInfo, TBuild>(&'a self, build: TBuild) -> (information: TInfo)
        where TBuild: FnOnce(&'a P::Tree) -> TInfo
        requires
            build.requires((&self.state().chain.tree,)),
        ensures
            build.ensures((&self.state().chain.tree,), information),
    {
        build(&self.state.chain.tree)
    }

    /// Number of the best block.
    ///
    /// It is there for information only: the best block might be reverted later.
    pub fn best_block_number(&self) -> (number: u64)
        ensures
            number == self.state().chain.best_block_number,
    {
        self.state.chain.best_block_number
    }

    /// Hash of the best block.
    ///
    /// It is there for information only: the best block might be reverted later.
    pub fn best_block_hash(&self) -> (hash: [u8; 32])
        ensures
            hash == self.state().chain.best_block_hash,
    {
        self.state.chain.best_block_hash
    }

    /// Informs the state machine of a new potential source of blocks. `register` hands the source to the
    /// scheduler and returns what the scheduler identifies it by. Nothing but the scheduler changes.
    pub fn add_source<'a, TRegister>(
        &'a mut self,
        source: P::Source,
        register: TRegister,
    ) -> (id: P::SourceId)
        where TRegister: FnOnce(&'a mut P::Sync, P::Source) -> P::SourceId
        requires
            forall|sync: &'a mut P::Sync|
                *sync == old(self).sync() ==> #[trigger] register.requires((sync, source)),
        ensures
            final(self).state() == old(self).state(),
            exists|sync: &'a mut P::Sync|
                *sync == old(self).sync() && *final(sync) == final(self).sync()
                    && #[trigger] register.ensures((sync, source), id),
    {
        register(&mut self.sync, source)
    }

    /// Informs the state machine that a source of blocks is no longer available. `remove` takes the
    /// source from the scheduler and returns what was attached to it, with the requests that are
    /// thereby cancelled. Nothing but the scheduler changes.
    pub fn remove_source<'a, TRemoved, TRemove>(
        &'a mut self,
        source: P::SourceId,
        remove: TRemove,
    ) -> (removed: TRemoved)
        where TRemove: FnOnce(&'a mut P::Sync, P::SourceId) -> TRemoved
        requires
            forall|sync: &'a mut P::Sync|
                *sync == old(self).sync() ==> #[trigger] remove.requires((sync, source)),
        ensures
            final(self).state() == old(self).state(),
            exists|sync: &'a mut P::Sync|
                *sync == old(self).sync() && *final(sync) == final(self).sync()
                    && #[trigger] remove.ensures((sync, source), removed),
    {
        remove(&mut self.sync, source)
    }

    /// Returns the next request that has to be started or cancelled, if any. `next` asks the
    /// scheduler for it. Nothing but the scheduler changes.
    pub fn next_request_action<'a, TAction, TNext>(
        &'a mut self,
        next: TNext,
    ) -> (action: Option<TAction>)
        where TNext: FnOnce(&'a mut P::Sync) -> Option<TAction>
        requires
            forall|sync: &'a mut P::Sync|
                *sync == old(self).sync() ==> #[trigger] next.requires((sync,)),
        ensures
            final(self).state() == old(self).state(),
            exists|sync: &'a mut P::Sync|
                *sync == old(self).sync() && *final(sync) == final(self).sync()
                    && #[trigger] next.ensures((sync,), action),
    {
        next(&mut self.sync)
    }

    /// Informs the state machine of the outcome of a request: the blocks that came, or why none did.
    /// `finish` hands the outcome to the scheduler and returns what was attached to the request, with
    /// what the scheduler made of the outcome. Nothing but the scheduler changes.
    pub fn finish_request<'a, TFinished, TFinish>(
        &'a mut self,
        request_id: P::RequestId,
        outcome: Result<Vec<RequestSuccessBlock>, P::RequestFail>,
        finish: TFinish,
    ) -> (finished: TFinished)
        where
            TFinish: FnOnce(
                &'a mut P::Sync,
                P::RequestId,
                Result<Vec<RequestSuccessBlock>, P::RequestFail>,
            ) -> TFinished,
        requires
            forall|sync: &'a mut P::Sync|
                *sync == old(self).sync() ==> #[trigger] finish.requires(
                    (sync, request_id, outcome),
                ),
        ensures
            final(self).state() == old(self).state(),
            exists|sync: &'a mut P::Sync|
                *sync == old(self).sync() && *final(sync) == final(self).sync()
                    && #[trigger] finish.ensures((sync, request_id, outcome), finished),
    {
        finish(&mut self.sync, request_id, outcome)
    }

    /// Processes a chunk of blocks in the queue of verification.
    ///
    /// Takes ownership of the state machine, which comes back when the processing is over. The
    /// first thing to do is to ask the scheduler for the blocks.
    pub fn process_one(self) -> (process: ProcessOne<P>)
        ensures
            process == ProcessOne::Call(
                (Call::TakeBlocks { sync: self.sync(), state: self.state() }),
            ),
    {
        ProcessOne::Call(Call::TakeBlocks { sync: self.sync, state: self.state })
    }
}

/// `process` is what the processing needs after the scheduler was asked for blocks: room for them
/// in the tree, or nothing at all if there are none.
pub open spec fn follows_blocks<P: Platform>(
    state: ChainState<P>,
    answer: Result<ToProcess<P>, P::Sync>,
    process: ProcessOne<P>,
) -> bool {
    match answer {
        Ok(to_process) => {
            &&& process matches ProcessOne::Call(Call::Reserve { chain, additional, shared })
            &&& chain == state.chain
            &&& additional == to_process.blocks@.len()
            &&& shared == (ProcessOneShared {
                to_process,
                best_to_finalized_storage_diff: state.best_to_finalized_storage_diff,
                runtime_code_cache: state.runtime_code_cache,
            })
        },
        Err(scheduler) => ends(state, scheduler, process),
    }
}

/// `process` gives the state machine back, made of `state` and `scheduler`.
pub open spec fn ends<P: Platform>(
    state: ChainState<P>,
    scheduler: P::Sync,
    process: ProcessOne<P>,
) -> bool {
    &&& process matches ProcessOne::Finished { sync }
    &&& sync.state() == state
    &&& sync.sync() == scheduler
}

impl<P: Platform> ChainState<P> {
    /// Continues with the answer of the scheduler to [`Call::TakeBlocks`]: the blocks to process,
    /// or the scheduler itself if there is nothing to do.
    pub fn blocks_taken(self, answer: Result<ToProcess<P>, P::Sync>) -> (process: ProcessOne<P>)
        ensures
            follows_blocks(self, answer, process),
    {
        match answer {
            Ok(to_process) => ProcessOne::Call(
                Call::Reserve {
                    chain: self.chain,
                    additional: to_process.blocks.len(),
                    shared: ProcessOneShared {
                        to_process,
                        best_to_finalized_storage_diff: self.best_to_finalized_storage_diff,
                        runtime_code_cache: self.runtime_code_cache,
                    },
                },
            ),
            Err(sync) => self.finish(sync),
        }
    }

    /// Ends the processing, with the scheduler that [`Call::UpdateBlockHeight`] or
    /// [`Call::ResetToFinalized`] gave back.
    pub fn finish(self, scheduler: P::Sync) -> (process: ProcessOne<P>)
        ensures
            ends(self, scheduler, process),
    {
        ProcessOne::Finished { sync: OptimisticFullSync { state: self, sync: scheduler } }
    }
}

} // verus!
