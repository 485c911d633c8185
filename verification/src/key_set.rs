//! The set of storage keys that is assembled when the keys below a prefix are listed.
//!
//! The set itself is a `hashbrown::HashSet` hashed with FNV. Verus sees it only through the name
//! [`key_set`] and through the functions of this module.
use fnv::FnvBuildHasher;
use hashbrown::HashSet;
use vstd::prelude::*;

verus! {

/// The set type of `hashbrown`.
#[verifier::external_type_specification]
#[verifier::external_body]
#[verifier::reject_recursive_types(T)]
#[verifier::reject_recursive_types(S)]
pub struct ExHashSet<T, S>(hashbrown::HashSet<T, S>);

/// The hasher of `fnv`.
#[verifier::external_type_specification]
#[verifier::external_body]
pub struct ExFnvHasher(fnv::FnvHasher);

/// The hasher builder of std, which `fnv::FnvBuildHasher` is an instance of.
#[verifier::external_type_specification]
#[verifier::external_body]
#[verifier::reject_recursive_types(H)]
pub struct ExBuildHasherDefault<H>(core::hash::BuildHasherDefault<H>);

/// The keys that a set holds, each as its bytes.
pub uninterp spec fn key_set(set: HashSet<Vec<u8>, FnvBuildHasher>) -> Set<Seq<u8>>;

/// Calls `FromIterator::from_iter` of `hashbrown::HashSet`: the set holds exactly the keys of the
/// list, each once however often the list repeats it.
#[verifier::external_body]
pub(crate) fn collect_keys(keys: Vec<Vec<u8>>) -> (set: HashSet<Vec<u8>, FnvBuildHasher>)
    ensures
        key_set(set) == keys.deep_view().to_set(),
{
    keys.into_iter().collect()
}

/// Calls `hashbrown::HashSet::insert`: the key is added, and the result tells whether it was
/// missing before.
#[verifier::external_body]
pub(crate) fn insert_key(set: &mut HashSet<Vec<u8>, FnvBuildHasher>, key: Vec<u8>) -> (added: bool)
    ensures
        key_set(*final(set)) == key_set(*old(set)).insert(key@),
        added == !key_set(*old(set)).contains(key@),
{
    set.insert(key)
}

/// Calls `hashbrown::HashSet::remove`: the key is taken out, and the result tells whether it was
/// there before.
#[verifier::external_body]
pub(crate) fn remove_key(set: &mut HashSet<Vec<u8>, FnvBuildHasher>, key: &Vec<u8>) -> (removed: bool)
    ensures
        key_set(*final(set)) == key_set(*old(set)).remove(key@),
        removed == key_set(*old(set)).contains(key@),
{
    set.remove(key)
}

/// Calls `hashbrown::HashSet::iter` and copies each key that comes out: every key of the set comes
/// out, and no key twice. The order is that of the hash table and is left unsaid.
#[verifier::external_body]
pub(crate) fn list_keys(set: &HashSet<Vec<u8>, FnvBuildHasher>) -> (keys: Vec<Vec<u8>>)
    ensures
        keys.deep_view().to_set() == key_set(*set),
        keys.deep_view().no_duplicates(),
{
    set.iter().cloned().collect()
}

} // verus!
