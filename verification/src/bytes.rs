//! Byte strings: their lexicographic order, prefixes and concatenation.
use vstd::prelude::*;

verus! {

/// Position `i` shows that `a` sorts before `b`: they agree before it, and there `a` either ends
/// or holds the smaller byte.
pub open spec fn less_at(a: Seq<u8>, b: Seq<u8>, i: int) -> bool {
    &&& 0 <= i <= a.len()
    &&& i < b.len()
    &&& forall|j: int| 0 <= j < i ==> a[j] == b[j]
    &&& i < a.len() ==> a[i] < b[i]
}

/// `a` sorts before `b` in lexicographic order.
pub open spec fn less(a: Seq<u8>, b: Seq<u8>) -> bool {
    exists|i: int| less_at(a, b, i)
}

/// The order is irreflexive and transitive.
pub proof fn lemma_less_is_strict(a: Seq<u8>, b: Seq<u8>, c: Seq<u8>)
    ensures
        !less(a, a),
        less(a, b) && less(b, c) ==> less(a, c),
        less(a, b) ==> !less(b, a),
{
    if less(a, b) && less(b, c) {
        let i = choose|i: int| less_at(a, b, i);
        let j = choose|j: int| less_at(b, c, j);
        assert(less_at(a, c, if i < j { i } else { j }));
    }
    if less(a, b) && less(b, a) {
        let i = choose|i: int| less_at(a, b, i);
        let j = choose|j: int| less_at(b, a, j);
        assert(a[i] == b[i] || a[j] == b[j] || i == j);
    }
}

/// Any two byte strings are equal or one sorts before the other.
pub proof fn lemma_less_is_total(a: Seq<u8>, b: Seq<u8>)
    ensures
        a == b || less(a, b) || less(b, a),
{
    lemma_total_from(a, b, 0);
}

proof fn lemma_total_from(a: Seq<u8>, b: Seq<u8>, i: int)
    requires
        0 <= i <= a.len(),
        i <= b.len(),
        forall|j: int| 0 <= j < i ==> a[j] == b[j],
    ensures
        a == b || less(a, b) || less(b, a),
    decreases a.len() - i,
{
    if i == a.len() && i == b.len() {
        assert(a =~= b);
    } else if i == a.len() {
        assert(less_at(a, b, i));
    } else if i == b.len() {
        assert(less_at(b, a, i));
    } else if a[i] < b[i] {
        assert(less_at(a, b, i));
    } else if b[i] < a[i] {
        assert(less_at(b, a, i));
    } else {
        lemma_total_from(a, b, i + 1);
    }
}

/// A prefix never sorts after a string that starts with it.
pub proof fn lemma_prefix_is_first(prefix: Seq<u8>, key: Seq<u8>)
    requires
        prefix.is_prefix_of(key),
    ensures
        !less(key, prefix),
{
    if less(key, prefix) {
        let i = choose|i: int| less_at(key, prefix, i);
        assert(prefix[i] == key.subrange(0, prefix.len() as int)[i]);
    }
}

/// The strings that start with `prefix` are next to each other in the order: whatever lies between
/// `prefix` and one of them starts with `prefix` too.
pub proof fn lemma_prefix_range_is_contiguous(prefix: Seq<u8>, between: Seq<u8>, key: Seq<u8>)
    requires
        prefix.is_prefix_of(key),
        !less(between, prefix),
        less(between, key),
    ensures
        prefix.is_prefix_of(between),
{
    lemma_less_is_total(prefix, between);
    if prefix == between {
        assert(prefix =~= between.subrange(0, prefix.len() as int));
    } else {
        let i = choose|i: int| less_at(prefix, between, i);
        if i == prefix.len() {
            assert(prefix =~= between.subrange(0, prefix.len() as int));
        } else {
            assert forall|j: int| 0 <= j <= i implies key[j] == prefix[j] by {
                assert(prefix[j] == key.subrange(0, prefix.len() as int)[j]);
            }
            assert(less_at(key, between, i));
            lemma_less_is_strict(key, between, key);
        }
    }
}

/// Whether `a` sorts before `b`.
pub fn is_less(a: &[u8], b: &[u8]) -> (result: bool)
    ensures
        result == less(a@, b@),
{
    let mut i: usize = 0;
    while i < a.len() && i < b.len() && a[i] == b[i]
        invariant
            i <= a@.len(),
            i <= b@.len(),
            forall|j: int| 0 <= j < i ==> a@[j] == b@[j],
        decreases a@.len() - i,
    {
        i = i + 1;
    }
    let result = i < b.len() && (i == a.len() || a[i] < b[i]);
    proof {
        if result {
            assert(less_at(a@, b@, i as int));
        } else if less(a@, b@) {
            let k = choose|k: int| less_at(a@, b@, k);
            assert(k == i);
        }
    }
    result
}

/// Whether `a` and `b` hold the same bytes.
pub fn is_equal(a: &[u8], b: &[u8]) -> (result: bool)
    ensures
        result == (a@ == b@),
{
    a.len() == b.len() && has_prefix(a, b)
}

/// Whether `key` starts with `prefix`.
pub fn has_prefix(key: &[u8], prefix: &[u8]) -> (result: bool)
    ensures
        result == prefix@.is_prefix_of(key@),
        key@.len() == prefix@.len() ==> result == (key@ == prefix@),
{
    if key.len() < prefix.len() {
        return false;
    }
    let mut i: usize = 0;
    while i < prefix.len()
        invariant
            i <= prefix@.len() <= key@.len(),
            forall|j: int| 0 <= j < i ==> key@[j] == prefix@[j],
        decreases prefix@.len() - i,
    {
        if key[i] != prefix[i] {
            assert(key@.subrange(0, prefix@.len() as int)[i as int] != prefix@[i as int]);
            return false;
        }
        i = i + 1;
    }
    assert(prefix@ =~= key@.subrange(0, prefix@.len() as int));
    assert(key@.len() == prefix@.len() ==> key@ =~= prefix@);
    true
}

/// Copies a byte string.
pub fn copy_bytes(bytes: &[u8]) -> (copy: Vec<u8>)
    ensures
        copy@ == bytes@,
{
    let mut copy: Vec<u8> = Vec::new();
    copy.extend_from_slice(bytes);
    assert(copy@ =~= bytes@);
    copy
}

/// Copies a byte string that may be missing.
pub fn copy_optional_bytes(bytes: &Option<Vec<u8>>) -> (copy: Option<Vec<u8>>)
    ensures
        copy.deep_view() == bytes.deep_view(),
{
    match bytes {
        Some(bytes) => {
            let copy = copy_bytes(bytes.as_slice());
            assert(copy.deep_view() =~= bytes.deep_view());
            Some(copy)
        },
        None => None,
    }
}

/// Copies a byte string that is given in pieces, piece by piece.
pub fn copy_pieces(pieces: &Vec<Vec<u8>>) -> (copy: Vec<Vec<u8>>)
    ensures
        copy.deep_view() == pieces.deep_view(),
{
    let mut copy: Vec<Vec<u8>> = Vec::new();
    let mut i: usize = 0;
    while i < pieces.len()
        invariant
            i <= pieces@.len(),
            copy@.len() == i,
            forall|j: int| 0 <= j < i ==> (#[trigger] copy@[j])@ == pieces@[j]@,
        decreases pieces@.len() - i,
    {
        copy.push(copy_bytes(pieces[i].as_slice()));
        i = i + 1;
    }
    assert forall|j: int| 0 <= j < pieces@.len() implies copy.deep_view()[j]
        == pieces.deep_view()[j] by {
        assert(copy@[j].deep_view() =~= pieces@[j].deep_view());
    }
    assert(copy.deep_view() =~= pieces.deep_view());
    copy
}

/// Joins the pieces of a byte string in their order.
pub fn join_pieces(pieces: &Vec<Vec<u8>>) -> (whole: Vec<u8>)
    ensures
        whole@ == pieces.deep_view().flatten(),
{
    let mut whole: Vec<u8> = Vec::new();
    let mut i: usize = 0;
    let ghost all = pieces.deep_view();
    assert(all.take(0) =~= Seq::<Seq<u8>>::empty());
    while i < pieces.len()
        invariant
            i <= pieces@.len(),
            all == pieces.deep_view(),
            whole@ == all.take(i as int).flatten(),
        decreases pieces@.len() - i,
    {
        let ghost before = whole@;
        whole.extend_from_slice(pieces[i].as_slice());
        proof {
            assert(all[i as int] =~= pieces@[i as int]@);
            assert(whole@ =~= before + pieces@[i as int]@);
            assert(all.take(i + 1) =~= all.take(i as int).push(all[i as int]));
            all.take(i as int).lemma_flatten_push(all[i as int]);
        }
        i = i + 1;
    }
    assert(all.take(i as int) =~= all);
    whole
}

} // verus!
