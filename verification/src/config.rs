//! Configuration of the state machine.
use vstd::prelude::*;

use crate::platform::Platform;

verus! {

/// A `u32` that is not zero.
#[derive(Clone, Copy, Debug)]
pub struct NonZeroU32 {
    value: u32,
}

impl NonZeroU32 {
    #[verifier::type_invariant]
    spec fn inv(self) -> bool {
        self.value != 0
    }

    /// The number as a mathematical integer.
    pub closed spec fn value(&self) -> int {
        self.value as int
    }

    /// Wraps a number, unless it is zero.
    pub fn new(value: u32) -> (number: Option<Self>)
        ensures
            match number {
                Some(number) => value != 0 && number.value() == value,
                None => value == 0,
            },
    {
        if value == 0 {
            None
        } else {
            Some(NonZeroU32 { value })
        }
    }

    /// The number.
    pub fn get(&self) -> (value: u32)
        ensures
            value == self.value(),
            value != 0,
    {
        proof {
            use_type_invariant(self);
        }
        self.value
    }
}

/// Configuration of an [`OptimisticFullSync`](crate::full_sync::OptimisticFullSync).
#[derive(Debug)]
pub struct Config<P: Platform> {
    /// Information about the latest finalized block and its ancestors.
    pub chain_information: P::ChainInformation,

    /// Configuration of BABE, as found in the genesis block.
    pub babe_genesis_config: P::BabeGenesisConfiguration,

    /// Number of block sources to allocate memory for in advance.
    pub sources_capacity: usize,

    /// Number of blocks between the finalized block and the head of the chain to allocate memory
    /// for in advance.
    ///
    /// Should be the highest number of blocks between two justifications that follow each other.
    pub blocks_capacity: usize,

    /// Highest number of blocks that a response holds.
    ///
    /// Where blocks come from the network, this should be the limit that the protocol enforces.
    pub blocks_request_granularity: NonZeroU32,

    /// Number of blocks to download ahead of the best block.
    ///
    /// Whenever the best block changes, the scheduler starts requests for the blocks up to
    /// `best_block_height + download_ahead_blocks`. As a request takes some time, this keeps the
    /// verification from waiting for one. A good value depends on the speed of the verification
    /// and on how long requests take.
    pub download_ahead_blocks: u32,

    /// Seed of the generator of pseudo-random numbers that picks the source of each request.
    ///
    /// Should be random, unless runs have to be reproducible.
    pub source_selection_randomness_seed: u64,
}

/// Configuration of the tree of blocks.
pub struct TreeConfig<P: Platform> {
    /// Information about the latest finalized block and its ancestors.
    pub chain_information: P::ChainInformation,

    /// Configuration of BABE, as found in the genesis block.
    pub babe_genesis_config: P::BabeGenesisConfiguration,

    /// Number of blocks to allocate memory for in advance.
    pub blocks_capacity: usize,
}

/// Configuration of the scheduler of sources and requests.
pub struct SyncConfig {
    /// Number of the best block that is known at the start.
    pub best_block_number: u64,

    /// Number of sources to allocate memory for in advance.
    pub sources_capacity: usize,

    /// Highest number of blocks that a response holds.
    pub blocks_request_granularity: NonZeroU32,

    /// Number of blocks to download ahead of the best block.
    pub download_ahead_blocks: u32,

    /// Seed of the generator that picks the source of each request.
    pub source_selection_randomness_seed: u64,
}

impl<P: Platform> Config<P> {
    /// The part of the configuration that the tree of blocks is built from.
    pub open spec fn tree_config(self) -> TreeConfig<P> {
        TreeConfig {
            chain_information: self.chain_information,
            babe_genesis_config: self.babe_genesis_config,
            blocks_capacity: self.blocks_capacity,
        }
    }

    /// The configuration that the scheduler is built from, next to a tree with a given best block.
    pub open spec fn sync_config(self, best_block_number: u64) -> SyncConfig {
        SyncConfig {
            best_block_number,
            sources_capacity: self.sources_capacity,
            blocks_request_granularity: self.blocks_request_granularity,
            download_ahead_blocks: self.download_ahead_blocks,
            source_selection_randomness_seed: self.source_selection_randomness_seed,
        }
    }
}

} // verus!
