//! Optimistic syncing of block headers and bodies.
//!
//! The state machine of this crate builds, from a set of sources, a verified chain of block headers
//! and bodies. It decides what to do; it does not itself talk to sources, run runtimes or read
//! storage. Using an [`OptimisticFullSync`] requires holding the storage of the latest finalized
//! block, and the components that [`Platform`] names.
pub mod bytes;
pub mod config;
pub mod full_sync;
pub mod key_set;
pub mod laws;
pub mod operations;
pub mod platform;
pub mod process;
pub mod runs;
pub mod storage_diff;
pub mod storage_operations;

pub use config::{Config, NonZeroU32, SyncConfig, TreeConfig};
pub use full_sync::{ChainState, OptimisticFullSync};
pub use platform::{Chain, Platform};
pub use process::{
    BodyVerifyStep1, BodyVerifyStep2, Call, Inner, ProcessOne, ProcessOneShared,
    RequestSuccessBlock, StorageGet, StorageNextKey, StoragePrefixKeys, ToProcess,
};
pub use storage_diff::StorageDiff;
