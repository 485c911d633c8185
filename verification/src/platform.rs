//! What the state machine is told about the components that it coordinates.
use vstd::prelude::*;

verus! {

/// The types of the components that the state machine coordinates and does not look into.
pub trait Platform: Sized {
    /// Information about a chain up to its latest finalized block.
    type ChainInformation;

    /// Configuration of BABE, as found in the genesis block.
    type BabeGenesisConfiguration;

    /// The tree of the blocks that descend from the finalized block.
    type Tree;

    /// The scheduler of sources and block requests.
    type Sync;

    /// A source of blocks.
    type Source;

    /// What the scheduler identifies a source by.
    type SourceId;

    /// What the scheduler identifies a request by.
    type RequestId;

    /// Why a request failed.
    type RequestFail;

    /// The scheduler while it waits to be told how the processing of a chunk of blocks went.
    type Report;

    /// A compiled runtime.
    type WasmVm;

    /// Why code cannot be compiled.
    type CompileError;

    /// A verification that waits for the runtime of the parent block.
    type RuntimeRequired;

    /// A verification that waits for a storage value of the parent block.
    type StorageGet;

    /// A verification that waits for the keys of the parent block that start with a prefix.
    type StoragePrefixKeys;

    /// A verification that waits for the storage key of the parent block that follows another.
    type StorageNextKey;

    /// A verified block that waits to be inserted in the tree that it was verified against.
    type Verified;
}

/// A tree of blocks together with the blocks that stand out in it.
pub struct Chain<P: Platform> {
    /// The tree itself.
    pub tree: P::Tree,

    /// Number of the best block of the tree.
    pub best_block_number: u64,

    /// Hash of the best block of the tree.
    pub best_block_hash: [u8; 32],

    /// Number of the block that the tree is rooted at.
    pub finalized_block_number: u64,
}

} // verus!
