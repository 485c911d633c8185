//! Processing of a chunk of blocks.
//!
//! A chunk is processed as a dialogue. [`ProcessOne`] says what is needed to go on: a value of the
//! storage of the finalized block, which only the user can provide, or a [`Call`] to one of the
//! components of the platform. Whatever comes back is handed in, and the next [`ProcessOne`]
//! comes out, until the processing is [`ProcessOne::Finished`].
use std::collections::VecDeque;
use vstd::prelude::*;

use crate::bytes::{copy_bytes, copy_optional_bytes, copy_pieces, join_pieces};
use crate::full_sync::{ChainState, OptimisticFullSync};
use crate::key_set::{collect_keys, list_keys};
use crate::platform::{Chain, Platform};
use crate::storage_diff::{keys_through, StorageDiff};

verus! {

/// The storage key of the runtime code, `:code`.
pub open spec fn code_key() -> Seq<u8> {
    seq![0x3au8, 0x63u8, 0x6fu8, 0x64u8, 0x65u8]
}

/// The storage key of the runtime code, as bytes.
fn runtime_code_key() -> (key: Vec<u8>)
    ensures
        key@ == code_key(),
{
    let key = vec![0x3au8, 0x63u8, 0x6fu8, 0x64u8, 0x65u8];
    assert(key@ =~= code_key());
    key
}

/// A block that a source has sent.
pub struct RequestSuccessBlock {
    /// The header, SCALE-encoded.
    pub scale_encoded_header: Vec<u8>,

    /// The justification, SCALE-encoded, if there is one.
    pub scale_encoded_justification: Option<Vec<u8>>,

    /// The extrinsics of the body, each SCALE-encoded.
    pub scale_encoded_extrinsics: Vec<Vec<u8>>,
}

/// A chunk of blocks to process.
pub struct ToProcess<P: Platform> {
    /// The blocks, in the order in which to process them.
    pub blocks: VecDeque<RequestSuccessBlock>,

    /// Where to report how the processing went.
    pub report: P::Report,
}

/// What is kept while a chunk of blocks is processed.
pub struct ProcessOneShared<P: Platform> {
    /// The blocks that are still to be processed.
    pub to_process: ToProcess<P>,

    /// Changes in the storage of the best block in relation to the finalized block.
    pub best_to_finalized_storage_diff: StorageDiff,

    /// Compiled runtime of the best block, if there is one to reuse.
    pub runtime_code_cache: Option<P::WasmVm>,
}

/// Outcome of the first step of a verification.
pub enum BodyVerifyStep1<P: Platform> {
    /// The header of the block cannot be decoded.
    InvalidHeader(Chain<P>),

    /// The block is in the tree already.
    Duplicate(Chain<P>),

    /// The parent of the block is not in the tree.
    BadParent(Chain<P>),

    /// The verification needs the runtime of the parent block.
    ParentRuntimeRequired(P::RuntimeRequired),
}

/// Outcome of a later step of a verification.
#[allow(inconsistent_fields)]
pub enum BodyVerifyStep2<P: Platform> {
    /// The verification is over.
    Finished {
        /// Changes that the block makes to the storage of its parent.
        storage_top_trie_changes: StorageDiff,

        /// The runtime that the verification was given.
        parent_runtime: P::WasmVm,

        /// The verified block, or, if the block is invalid, the tree that it was verified against.
        result: Result<P::Verified, Chain<P>>,
    },

    /// The verification needs a storage value of the parent block.
    StorageGet {
        /// The waiting verification.
        req: P::StorageGet,

        /// The key of the value, in pieces to be joined.
        key: Vec<Vec<u8>>,
    },

    /// The verification needs the storage key of the parent block that follows another.
    StorageNextKey {
        /// The waiting verification.
        req: P::StorageNextKey,

        /// The key to start from.
        key: Vec<u8>,
    },

    /// The verification needs the storage keys of the parent block that start with a prefix.
    StoragePrefixKeys {
        /// The waiting verification.
        req: P::StoragePrefixKeys,

        /// The prefix.
        prefix: Vec<u8>,
    },
}

/// Where the processing of the current block stands.
pub enum Inner<P: Platform> {
    /// Between two blocks.
    Start(Chain<P>),

    /// The verification of a block has taken its first step.
    Step1(BodyVerifyStep1<P>),

    /// The verification of a block has taken a later step.
    Step2(BodyVerifyStep2<P>),
}

/// A call to a component of the platform that has to be made in order to continue.
#[allow(inconsistent_fields)]
pub enum Call<P: Platform> {
    /// Ask the scheduler for a chunk of blocks to process. Continue with
    /// [`ChainState::blocks_taken`].
    TakeBlocks {
        /// The scheduler to ask.
        sync: P::Sync,

        /// To continue with.
        state: ChainState<P>,
    },

    /// Allocate memory in a tree. Continue with [`Inner::Start`].
    Reserve {
        /// The tree.
        chain: Chain<P>,

        /// Number of blocks to make room for.
        additional: usize,

        /// To continue with.
        shared: ProcessOneShared<P>,
    },

    /// Start the verification of a block. Continue with [`Inner::Step1`].
    VerifyBody {
        /// The tree that the block should fit in.
        chain: Chain<P>,

        /// Header of the block.
        scale_encoded_header: Vec<u8>,

        /// Body of the block.
        scale_encoded_extrinsics: Vec<Vec<u8>>,

        /// To continue with.
        shared: ProcessOneShared<P>,
    },

    /// Compile the runtime of the parent block. Continue with [`ProcessOne::compiled`].
    Compile {
        /// The verification that waits for the runtime.
        req: P::RuntimeRequired,

        /// The code to compile.
        code: Vec<u8>,

        /// To continue with.
        shared: ProcessOneShared<P>,
    },

    /// Hand the runtime of the parent block to a verification. Continue with [`Inner::Step2`].
    Resume {
        /// The waiting verification.
        req: P::RuntimeRequired,

        /// The runtime.
        runtime: P::WasmVm,

        /// To continue with.
        shared: ProcessOneShared<P>,
    },

    /// Insert a verified block in its tree. Continue with [`Inner::Start`].
    Insert {
        /// The verified block.
        verified: P::Verified,

        /// To continue with.
        shared: ProcessOneShared<P>,
    },

    /// Hand a storage value to a verification. Continue with [`Inner::Step2`].
    InjectValue {
        /// The waiting verification.
        req: P::StorageGet,

        /// The value, or `None` if the storage has none.
        value: Option<Vec<u8>>,

        /// To continue with.
        shared: ProcessOneShared<P>,
    },

    /// Hand a list of keys to a verification. Continue with [`Inner::Step2`].
    InjectKeys {
        /// The waiting verification.
        req: P::StoragePrefixKeys,

        /// The keys, each once, in no particular order.
        keys: Vec<Vec<u8>>,

        /// To continue with.
        shared: ProcessOneShared<P>,
    },

    /// Hand the following key to a verification. Continue with [`Inner::Step2`].
    InjectKey {
        /// The waiting verification.
        req: P::StorageNextKey,

        /// The key, or `None` if there is no further one.
        key: Option<Vec<u8>>,

        /// To continue with.
        shared: ProcessOneShared<P>,
    },

    /// Report that all the blocks were processed. Continue with [`ChainState::finish`].
    UpdateBlockHeight {
        /// Where to report it.
        report: P::Report,

        /// Number of the block that is now the best one.
        height: u64,

        /// To continue with.
        state: ChainState<P>,
    },

    /// Report that a block was refused. Continue with [`ChainState::finish`].
    ResetToFinalized {
        /// Where to report it.
        report: P::Report,

        /// Number of the finalized block, to start again from.
        height: u64,

        /// To continue with.
        state: ChainState<P>,
    },
}

/// State of the processing of blocks.
pub enum ProcessOne<P: Platform> {
    /// Processing is over.
    Finished {
        /// The state machine, which [`OptimisticFullSync::process_one`] took ownership of.
        sync: OptimisticFullSync<P>,
    },

    /// A storage value of the finalized block is required in order to continue.
    FinalizedStorageGet(StorageGet<P>),

    /// The list of keys of the finalized block with a given prefix is required in order to
    /// continue.
    FinalizedStoragePrefixKeys(StoragePrefixKeys<P>),

    /// The key of the storage of the finalized block that follows a given one is required in
    /// order to continue.
    FinalizedStorageNextKey(StorageNextKey<P>),

    /// A component of the platform has to be called in order to continue.
    Call(Call<P>),
}

/// What a storage value is required for.
pub enum StorageGetTarget<P: Platform> {
    /// The verification asked for the value.
    Storage {
        /// The waiting verification.
        req: P::StorageGet,

        /// The key of the value, in pieces to be joined.
        key: Vec<Vec<u8>>,
    },

    /// The value is the code of the runtime that the verification waits for.
    Runtime(P::RuntimeRequired),
}

/// Loading a storage value is required in order to continue.
#[must_use]
pub struct StorageGet<P: Platform> {
    inner: StorageGetTarget<P>,
    shared: ProcessOneShared<P>,
}

/// Fetching the list of keys with a given prefix is required in order to continue.
#[must_use]
pub struct StoragePrefixKeys<P: Platform> {
    inner: P::StoragePrefixKeys,
    prefix: Vec<u8>,
    shared: ProcessOneShared<P>,
}

/// Fetching the key that follows a given one is required in order to continue.
#[must_use]
pub struct StorageNextKey<P: Platform> {
    inner: P::StorageNextKey,
    key: Vec<u8>,
    shared: ProcessOneShared<P>,
}

/// The processing can go on. It cannot where the runtime of a block is needed whose code was erased
/// from the storage.
pub open spec fn can_continue<P: Platform>(inner: Inner<P>, shared: ProcessOneShared<P>) -> bool {
    match inner {
        Inner::Step1(BodyVerifyStep1::ParentRuntimeRequired(_)) => {
            ||| shared.runtime_code_cache is Some
            ||| shared.best_to_finalized_storage_diff@.contains_key(code_key())
                ==> shared.best_to_finalized_storage_diff@[code_key()] is Some
        },
        _ => true,
    }
}

/// `process` is what the processing needs after it got to `chain` between two blocks: the
/// verification of the first of the blocks that are left, or a report if none is.
pub open spec fn follows_start<P: Platform>(
    chain: Chain<P>,
    shared: ProcessOneShared<P>,
    process: ProcessOne<P>,
) -> bool {
    let blocks = shared.to_process.blocks@;
    if blocks.len() > 0 {
        &&& process matches ProcessOne::Call(
            Call::VerifyBody {
                chain: verify_against,
                scale_encoded_header,
                scale_encoded_extrinsics,
                shared: rest,
            },
        )
        &&& verify_against == chain
        &&& scale_encoded_header == blocks[0].scale_encoded_header
        &&& scale_encoded_extrinsics == blocks[0].scale_encoded_extrinsics
        &&& rest.to_process.blocks@ == blocks.drop_first()
        &&& rest.to_process.report == shared.to_process.report
        &&& rest.best_to_finalized_storage_diff == shared.best_to_finalized_storage_diff
        &&& rest.runtime_code_cache == shared.runtime_code_cache
    } else {
        process == ProcessOne::Call(
            Call::UpdateBlockHeight {
                report: shared.to_process.report,
                height: chain.best_block_number,
                state: ChainState {
                    chain,
                    best_to_finalized_storage_diff: shared.best_to_finalized_storage_diff,
                    runtime_code_cache: shared.runtime_code_cache,
                },
            },
        )
    }
}

/// `process` is a report that a block was refused, to start again from the finalized block. The best
/// block stays what it is, and so do the changes in its storage. `cache` is what stays in the cache.
pub open spec fn resets<P: Platform>(
    chain: Chain<P>,
    shared: ProcessOneShared<P>,
    cache: Option<P::WasmVm>,
    process: ProcessOne<P>,
) -> bool {
    process == ProcessOne::Call(
        Call::ResetToFinalized {
            report: shared.to_process.report,
            height: chain.finalized_block_number,
            state: ChainState {
                chain,
                best_to_finalized_storage_diff: shared.best_to_finalized_storage_diff,
                runtime_code_cache: cache,
            },
        },
    )
}

/// `process` is what the processing needs after the first step of a verification.
pub open spec fn follows_step1<P: Platform>(
    step: BodyVerifyStep1<P>,
    shared: ProcessOneShared<P>,
    process: ProcessOne<P>,
) -> bool {
    let diff = shared.best_to_finalized_storage_diff;
    match step {
        // The cached runtime is given up.
        BodyVerifyStep1::InvalidHeader(chain) | BodyVerifyStep1::Duplicate(chain) => resets(
            chain,
            shared,
            None,
            process,
        ),
        // The cached runtime is kept.
        BodyVerifyStep1::BadParent(chain) => resets(
            chain,
            shared,
            shared.runtime_code_cache,
            process,
        ),
        // The runtime is the one in the cache, else the one that the diff has the code of, else
        // the one of the finalized block.
        BodyVerifyStep1::ParentRuntimeRequired(required) => match shared.runtime_code_cache {
            Some(runtime) => process == ProcessOne::Call(
                Call::Resume {
                    req: required,
                    runtime,
                    shared: ProcessOneShared { runtime_code_cache: None, ..shared },
                },
            ),
            None => if diff@.contains_key(code_key()) {
                &&& process matches ProcessOne::Call(Call::Compile { req, code, shared: rest })
                &&& req == required
                &&& Some(code@) == diff@[code_key()]
                &&& rest == shared
            } else {
                &&& process matches ProcessOne::FinalizedStorageGet(get)
                &&& get.target() == StorageGetTarget::<P>::Runtime(required)
                &&& get.shared() == shared
            },
        },
    }
}

/// `process` is what the processing needs after a later step of a verification.
pub open spec fn follows_step2<P: Platform>(
    step: BodyVerifyStep2<P>,
    shared: ProcessOneShared<P>,
    process: ProcessOne<P>,
) -> bool {
    let diff = shared.best_to_finalized_storage_diff;
    match step {
        BodyVerifyStep2::Finished { storage_top_trie_changes, parent_runtime, result } => {
            match result {
                // The changes of the block are added to the diff. Its parent's runtime is kept,
                // unless the block changes the code.
                Ok(valid) => {
                    &&& process matches ProcessOne::Call(Call::Insert { verified, shared: rest })
                    &&& verified == valid
                    &&& rest.to_process == shared.to_process
                    &&& rest.best_to_finalized_storage_diff@ == diff@.union_prefer_right(
                        storage_top_trie_changes@,
                    )
                    &&& rest.runtime_code_cache == if storage_top_trie_changes@.contains_key(
                        code_key(),
                    ) {
                        shared.runtime_code_cache
                    } else {
                        Some(parent_runtime)
                    }
                },
                // The changes of the block are dropped with it. Its parent's runtime is kept.
                Err(chain) => resets(chain, shared, Some(parent_runtime), process),
            }
        },
        // The value is the one of the diff if the diff has the key, else the finalized block's.
        BodyVerifyStep2::StorageGet { req: waiting, key } => if diff@.contains_key(
            key.deep_view().flatten(),
        ) {
            &&& process matches ProcessOne::Call(Call::InjectValue { req, value, shared: rest })
            &&& req == waiting
            &&& value.deep_view() == diff@[key.deep_view().flatten()]
            &&& rest == shared
        } else {
            &&& process matches ProcessOne::FinalizedStorageGet(get)
            &&& get.target() == (StorageGetTarget::<P>::Storage { req: waiting, key })
            &&& get.shared() == shared
        },
        BodyVerifyStep2::StorageNextKey { req, key } => {
            &&& process matches ProcessOne::FinalizedStorageNextKey(next)
            &&& next.request() == req
            &&& next.from_key() == key@
            &&& next.shared() == shared
        },
        BodyVerifyStep2::StoragePrefixKeys { req, prefix } => {
            &&& process matches ProcessOne::FinalizedStoragePrefixKeys(keys)
            &&& keys.request() == req
            &&& keys.key_prefix() == prefix@
            &&& keys.shared() == shared
        },
    }
}

/// `process` is what the processing needs next.
pub open spec fn follows<P: Platform>(
    inner: Inner<P>,
    shared: ProcessOneShared<P>,
    process: ProcessOne<P>,
) -> bool {
    match inner {
        Inner::Start(chain) => follows_start(chain, shared, process),
        Inner::Step1(step) => follows_step1(step, shared, process),
        Inner::Step2(step) => follows_step2(step, shared, process),
    }
}

/// `process` is what the processing needs after the user has answered `get` with `value`.
pub open spec fn follows_value<P: Platform>(
    get: StorageGet<P>,
    value: Option<Seq<u8>>,
    process: ProcessOne<P>,
) -> bool {
    match get.target() {
        StorageGetTarget::Storage { req: waiting, .. } => {
            &&& process matches ProcessOne::Call(
                Call::InjectValue { req, value: injected, shared },
            )
            &&& req == waiting
            &&& injected.deep_view() == value
            &&& shared == get.shared()
        },
        StorageGetTarget::Runtime(required) => {
            &&& process matches ProcessOne::Call(Call::Compile { req, code, shared })
            &&& req == required
            &&& Some(code@) == value
            &&& shared == get.shared()
        },
    }
}

/// `process` is what the processing needs after the user has answered `request` with `keys`: the
/// verification is handed each of the keys once, with the changes of the diff made to them.
pub open spec fn follows_keys<P: Platform>(
    request: StoragePrefixKeys<P>,
    keys: Set<Seq<u8>>,
    process: ProcessOne<P>,
) -> bool {
    &&& process matches ProcessOne::Call(Call::InjectKeys { req, keys: injected, shared })
    &&& req == request.request()
    &&& injected.deep_view().no_duplicates()
    &&& injected.deep_view().to_set() == keys_through(
        keys,
        request.shared().best_to_finalized_storage_diff@,
        request.key_prefix(),
    )
    &&& shared == request.shared()
}

/// `process` is what the processing needs after the user has answered `request` with `key`.
pub open spec fn follows_key<P: Platform>(
    request: StorageNextKey<P>,
    key: Option<Seq<u8>>,
    process: ProcessOne<P>,
) -> bool {
    &&& process matches ProcessOne::Call(Call::InjectKey { req, key: injected, shared })
    &&& req == request.request()
    &&& injected.deep_view() == key
    &&& shared == request.shared()
}

impl<P: Platform> ProcessOne<P> {
    /// Whether the processing can go on.
    pub fn can_continue(inner: &Inner<P>, shared: &ProcessOneShared<P>) -> (result: bool)
        ensures
            result == can_continue(*inner, *shared),
    {
        match inner {
            Inner::Step1(BodyVerifyStep1::ParentRuntimeRequired(_)) => {
                if shared.runtime_code_cache.is_some() {
                    return true;
                }
                match shared.best_to_finalized_storage_diff.get(runtime_code_key().as_slice()) {
                    Some(code) => code.is_some(),
                    None => true,
                }
            },
            _ => true,
        }
    }

    /// Drives the processing from where it stands to the next thing that it needs.
    pub fn from(inner: Inner<P>, shared: ProcessOneShared<P>) -> (process: Self)
        requires
            can_continue(inner, shared),
        ensures
            follows(inner, shared, process),
    {
        let ghost blocks = shared.to_process.blocks@;
        let mut shared = shared;
        match inner {
            Inner::Start(chain) => match shared.to_process.blocks.pop_front() {
                Some(block) => {
                    assert(shared.to_process.blocks@ =~= blocks.drop_first());
                    ProcessOne::Call(
                        Call::VerifyBody {
                            chain,
                            scale_encoded_header: block.scale_encoded_header,
                            scale_encoded_extrinsics: block.scale_encoded_extrinsics,
                            shared,
                        },
                    )
                },
                None => {
                    let height: u64 = chain.best_block_number;
                    ProcessOne::Call(
                        Call::UpdateBlockHeight {
                            report: shared.to_process.report,
                            height,
                            state: ChainState {
                                chain,
                                best_to_finalized_storage_diff: shared.best_to_finalized_storage_diff,
                                runtime_code_cache: shared.runtime_code_cache,
                            },
                        },
                    )
                },
            },
            Inner::Step1(BodyVerifyStep1::InvalidHeader(chain))
            | Inner::Step1(BodyVerifyStep1::Duplicate(chain)) => Self::reset_to_finalized(
                chain,
                shared.to_process.report,
                shared.best_to_finalized_storage_diff,
                None,
            ),
            Inner::Step1(BodyVerifyStep1::BadParent(chain)) => Self::reset_to_finalized(
                chain,
                shared.to_process.report,
                shared.best_to_finalized_storage_diff,
                shared.runtime_code_cache,
            ),
            Inner::Step1(BodyVerifyStep1::ParentRuntimeRequired(req)) => {
                // Compiling a runtime is expensive. The one of the best block is taken out of the
                // cache, to be put back when the verification is over.
                match shared.runtime_code_cache.take() {
                    Some(runtime) => ProcessOne::Call(Call::Resume { req, runtime, shared }),
                    None => {
                        let code = match shared.best_to_finalized_storage_diff.get(
                            runtime_code_key().as_slice(),
                        ) {
                            Some(code) => copy_optional_bytes(code),
                            None => None,
                        };
                        match code {
                            Some(code) => {
                                assert(code.deep_view() =~= code@);
                                ProcessOne::Call(Call::Compile { req, code, shared })
                            },
                            // The user has to be asked for the runtime code.
                            None => ProcessOne::FinalizedStorageGet(
                                StorageGet { inner: StorageGetTarget::Runtime(req), shared },
                            ),
                        }
                    },
                }
            },
            Inner::Step2(
                BodyVerifyStep2::Finished { storage_top_trie_changes, parent_runtime, result },
            ) => {
                match result {
                    Ok(verified) => {
                        if !storage_top_trie_changes.contains_key(runtime_code_key().as_slice()) {
                            shared.runtime_code_cache = Some(parent_runtime);
                        }
                        shared.best_to_finalized_storage_diff.extend(storage_top_trie_changes);
                        ProcessOne::Call(Call::Insert { verified, shared })
                    },
                    Err(chain) => Self::reset_to_finalized(
                        chain,
                        shared.to_process.report,
                        shared.best_to_finalized_storage_diff,
                        Some(parent_runtime),
                    ),
                }
            },
            Inner::Step2(BodyVerifyStep2::StorageGet { req, key }) => {
                // A value that the diff does not have is the same as in the finalized block, and
                // the user has to be asked for it.
                let whole_key = join_pieces(&key);
                let found = match shared.best_to_finalized_storage_diff.get(whole_key.as_slice()) {
                    Some(value) => Some(copy_optional_bytes(value)),
                    None => None,
                };
                match found {
                    Some(value) => ProcessOne::Call(Call::InjectValue { req, value, shared }),
                    None => ProcessOne::FinalizedStorageGet(
                        StorageGet { inner: StorageGetTarget::Storage { req, key }, shared },
                    ),
                }
            },
            Inner::Step2(BodyVerifyStep2::StorageNextKey { req, key }) => {
                ProcessOne::FinalizedStorageNextKey(StorageNextKey { inner: req, key, shared })
            },
            Inner::Step2(BodyVerifyStep2::StoragePrefixKeys { req, prefix }) => {
                ProcessOne::FinalizedStoragePrefixKeys(
                    StoragePrefixKeys { inner: req, prefix, shared },
                )
            },
        }
    }

    /// Continues with the outcome of [`Call::Compile`]: a verification that waits for a runtime is
    /// handed the compiled one. There is no way on with code that cannot be compiled.
    pub fn compiled(
        req: P::RuntimeRequired,
        result: Result<P::WasmVm, P::CompileError>,
        shared: ProcessOneShared<P>,
    ) -> (process: Self)
        requires
            result is Ok,
        ensures
            process == ProcessOne::Call((Call::Resume { req, runtime: result->Ok_0, shared })),
    {
        match result {
            Ok(runtime) => ProcessOne::Call(Call::Resume { req, runtime, shared }),
            Err(_) => vstd::pervasive::unreached(),
        }
    }

    /// Reports that a block was refused.
    fn reset_to_finalized(
        chain: Chain<P>,
        report: P::Report,
        best_to_finalized_storage_diff: StorageDiff,
        runtime_code_cache: Option<P::WasmVm>,
    ) -> (process: Self)
        ensures
            process == ProcessOne::Call(
                (Call::ResetToFinalized {
                    report,
                    height: chain.finalized_block_number,
                    state: ChainState { chain, best_to_finalized_storage_diff, runtime_code_cache },
                }),
            ),
    {
        let height: u64 = chain.finalized_block_number;
        ProcessOne::Call(
            Call::ResetToFinalized {
                report,
                height,
                state: ChainState { chain, best_to_finalized_storage_diff, runtime_code_cache },
            },
        )
    }
}

impl<P: Platform> StorageGet<P> {
    /// What the value is required for.
    pub closed spec fn target(&self) -> StorageGetTarget<P> {
        self.inner
    }

    /// What is kept until the value is there.
    pub closed spec fn shared(&self) -> ProcessOneShared<P> {
        self.shared
    }

    /// The key of the value that is required, in pieces.
    pub open spec fn key_pieces(&self) -> Seq<Seq<u8>> {
        match self.target() {
            StorageGetTarget::Storage { key, .. } => key.deep_view(),
            StorageGetTarget::Runtime(_) => seq![code_key()],
        }
    }

    /// Returns the key whose value must be passed to [`StorageGet::inject_value`], in pieces to be
    /// joined.
    pub fn key(&self) -> (key: Vec<Vec<u8>>)
        ensures
            key.deep_view() == self.key_pieces(),
    {
        match &self.inner {
            StorageGetTarget::Storage { key, .. } => copy_pieces(key),
            StorageGetTarget::Runtime(_) => {
                let key = vec![runtime_code_key()];
                assert(key@[0].deep_view() =~= code_key());
                assert(key.deep_view() =~= seq![code_key()]);
                key
            },
        }
    }

    /// Whether the value is the code of a runtime. Such a value cannot be missing.
    pub fn is_runtime_code(&self) -> (result: bool)
        ensures
            result == (self.target() is Runtime),
    {
        match &self.inner {
            StorageGetTarget::Storage { .. } => false,
            StorageGetTarget::Runtime(_) => true,
        }
    }

    /// Injects the corresponding storage value.
    pub fn inject_value(self, value: Option<&[u8]>) -> (process: ProcessOne<P>)
        requires
            self.target() is Runtime ==> value is Some,
        ensures
            follows_value(self, value.deep_view(), process),
    {
        let ghost answer = value.deep_view();
        let value: Option<Vec<u8>> = match value {
            Some(value) => Some(copy_bytes(value)),
            None => None,
        };
        assert(value.deep_view() =~= answer) by {
            if let Some(value) = value {
                assert(value.deep_view() =~= answer->0);
            }
        }
        match self.inner {
            StorageGetTarget::Storage { req, .. } => ProcessOne::Call(
                Call::InjectValue { req, value, shared: self.shared },
            ),
            StorageGetTarget::Runtime(req) => match value {
                Some(code) => {
                    assert(code.deep_view() =~= code@);
                    ProcessOne::Call(Call::Compile { req, code, shared: self.shared })
                },
                None => vstd::pervasive::unreached(),
            },
        }
    }
}

impl<P: Platform> StoragePrefixKeys<P> {
    /// The waiting verification.
    pub closed spec fn request(&self) -> P::StoragePrefixKeys {
        self.inner
    }

    /// The prefix of the keys that are required.
    pub closed spec fn key_prefix(&self) -> Seq<u8> {
        self.prefix@
    }

    /// What is kept until the keys are there.
    pub closed spec fn shared(&self) -> ProcessOneShared<P> {
        self.shared
    }

    /// Returns the prefix whose keys to load.
    pub fn prefix(&self) -> (prefix: &[u8])
        ensures
            prefix@ == self.key_prefix(),
    {
        self.prefix.as_slice()
    }

    /// Injects the list of keys.
    pub fn inject_keys(self, keys: Vec<Vec<u8>>) -> (process: ProcessOne<P>)
        ensures
            follows_keys(self, keys.deep_view().to_set(), process),
    {
        let mut set = collect_keys(keys);
        self.shared.best_to_finalized_storage_diff.apply_to_keys(self.prefix.as_slice(), &mut set);
        let keys = list_keys(&set);
        ProcessOne::Call(Call::InjectKeys { req: self.inner, keys, shared: self.shared })
    }
}

impl<P: Platform> StorageNextKey<P> {
    /// The waiting verification.
    pub closed spec fn request(&self) -> P::StorageNextKey {
        self.inner
    }

    /// The key to start from.
    pub closed spec fn from_key(&self) -> Seq<u8> {
        self.key@
    }

    /// What is kept until the key is there.
    pub closed spec fn shared(&self) -> ProcessOneShared<P> {
        self.shared
    }

    /// Returns the key whose next key must be passed back.
    pub fn key(&self) -> (key: &[u8])
        ensures
            key@ == self.from_key(),
    {
        self.key.as_slice()
    }

    /// Injects the key.
    pub fn inject_key(self, key: Option<&[u8]>) -> (process: ProcessOne<P>)
        ensures
            follows_key(self, key.deep_view(), process),
    {
        let key: Option<Vec<u8>> = match key {
            Some(key) => Some(copy_bytes(key)),
            None => None,
        };
        ProcessOne::Call(Call::InjectKey { req: self.inner, key, shared: self.shared })
    }
}

} // verus!
