# full_optimistic

Optimistic syncing of block headers and bodies, as a verified state machine.

The state machine decides and remembers; it performs no work of its own on blocks, runtimes or the
network. While a chunk of blocks is processed it says, step by step, what it needs: a call to one of
the components of the platform (the tree of blocks, the executor of runtimes, the scheduler of
sources), or a part of the storage of the finalized block, which only the user has.

- `src/platform.rs`: the types of the components, which the state machine carries and does not look
  into, and what it is told about a tree of blocks.
- `src/config.rs`, `src/full_sync.rs`: configuration and the state machine at rest.
- `src/process.rs`: processing of a chunk of blocks.
- `src/storage_diff.rs`, `src/bytes.rs`: changes to a storage, as a map in the lexicographic order of
  its keys.
- `src/key_set.rs`: the hash set in which keys are gathered, with what is taken for granted of it.
- `src/laws.rs`, `src/runs.rs`: what all of this guarantees together, from one step to the next and
  over a whole run.
- `app/`: the loop that makes the calls and hands the answers back, for any components that implement
  its trait `Components`. The components themselves are not part of this project.
