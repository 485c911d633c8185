//! What the operations on byte strings, storage changes and numbers do, seen from outside.
//!
//! As in [`operations`](crate::operations), the laws speak of calls of the executable functions and of
//! how their results relate.
use fnv::FnvBuildHasher;
use hashbrown::HashSet;
use vstd::prelude::*;

use crate::bytes::{
    copy_bytes, copy_optional_bytes, copy_pieces, has_prefix, is_equal, is_less, join_pieces,
    lemma_less_is_strict, lemma_less_is_total, less, less_at,
};
use crate::config::NonZeroU32;
use crate::key_set::key_set;
use crate::storage_diff::StorageDiff;

verus! {

/// A new diff changes no key.
pub proof fn law_new_diff_changes_nothing(
    diff: StorageDiff,
    key: &[u8],
    found: Option<&Option<Vec<u8>>>,
)
    requires
        call_ensures(StorageDiff::new, (), diff),
        call_ensures(StorageDiff::get, (&diff, key), found),
    ensures
        found is None,
{
}

/// A change that is inserted is the one that is found under its key from then on, and under every
/// other key that is found which was found before.
pub proof fn law_inserted_change_is_found(
    diff: &mut StorageDiff,
    key: Vec<u8>,
    value: Option<Vec<u8>>,
    other_key: &[u8],
    before: Option<&Option<Vec<u8>>>,
    after: Option<&Option<Vec<u8>>>,
)
    requires
        call_ensures(StorageDiff::get, (&*diff, other_key), before),
        call_ensures(StorageDiff::insert, (diff, key, value), ()),
        call_ensures(StorageDiff::get, (&*final(diff), other_key), after),
    ensures
        other_key@ == key@ ==> after.deep_view() == Some(value.deep_view()),
        other_key@ != key@ ==> after.deep_view() == before.deep_view(),
{
}

/// After a diff is extended by another, that which the other has under a key is found there, and
/// that which was found before where the other has nothing.
pub proof fn law_extended_diff_has_both(
    diff: &mut StorageDiff,
    other: StorageDiff,
    key: &[u8],
    before: Option<&Option<Vec<u8>>>,
    in_other: Option<&Option<Vec<u8>>>,
    after: Option<&Option<Vec<u8>>>,
)
    requires
        call_ensures(StorageDiff::get, (&*diff, key), before),
        call_ensures(StorageDiff::get, (&other, key), in_other),
        call_ensures(StorageDiff::extend, (diff, other), ()),
        call_ensures(StorageDiff::get, (&*final(diff), key), after),
    ensures
        in_other is Some ==> after.deep_view() == in_other.deep_view(),
        in_other is None ==> after.deep_view() == before.deep_view(),
{
}

/// A diff contains the keys under which something is found.
pub proof fn law_contained_key_is_found(
    diff: StorageDiff,
    key: &[u8],
    contained: bool,
    found: Option<&Option<Vec<u8>>>,
)
    requires
        call_ensures(StorageDiff::contains_key, (&diff, key), contained),
        call_ensures(StorageDiff::get, (&diff, key), found),
    ensures
        contained == (found is Some),
{
}

/// A diff that is applied to the keys below a prefix adds those that it sets and takes out those
/// that it erases, and leaves the other keys alone.
pub proof fn law_diff_is_applied_to_keys(
    diff: StorageDiff,
    prefix: &[u8],
    keys: &mut HashSet<Vec<u8>, FnvBuildHasher>,
    key: &[u8],
    below: bool,
    found: Option<&Option<Vec<u8>>>,
)
    requires
        call_ensures(StorageDiff::apply_to_keys, (&diff, prefix, keys), ()),
        call_ensures(has_prefix, (key, prefix), below),
        call_ensures(StorageDiff::get, (&diff, key), found),
    ensures
        below && found is Some && *found->0 is Some ==> key_set(*final(keys)).contains(key@),
        below && found is Some && *found->0 is None ==> !key_set(*final(keys)).contains(key@),
        !below || found is None ==> key_set(*final(keys)).contains(key@) == key_set(*old(keys)).contains(
            key@,
        ),
{
}

/// Byte strings are strictly and totally ordered: no string sorts before itself, of two different
/// ones exactly one sorts before the other, and the order is transitive.
pub proof fn law_order_is_strict_and_total(
    a: &[u8],
    b: &[u8],
    c: &[u8],
    a_a: bool,
    a_b: bool,
    b_a: bool,
    b_c: bool,
    a_c: bool,
)
    requires
        call_ensures(is_less, (a, a), a_a),
        call_ensures(is_less, (a, b), a_b),
        call_ensures(is_less, (b, a), b_a),
        call_ensures(is_less, (b, c), b_c),
        call_ensures(is_less, (a, c), a_c),
    ensures
        !a_a,
        a@ != b@ ==> a_b != b_a,
        a_b && b_c ==> a_c,
{
    lemma_less_is_strict(a@, b@, c@);
    lemma_less_is_total(a@, b@);
}

/// The order is lexicographic: a string sorts before another that it begins, and where two strings
/// first differ, the smaller byte decides.
pub proof fn law_order_is_lexicographic(
    a: &[u8],
    b: &[u8],
    common: Seq<u8>,
    rest_a: Seq<u8>,
    rest_b: Seq<u8>,
    a_b: bool,
    b_a: bool,
)
    requires
        call_ensures(is_less, (a, b), a_b),
        call_ensures(is_less, (b, a), b_a),
        a@ == common + rest_a,
        b@ == common + rest_b,
        rest_b.len() > 0,
    ensures
        rest_a.len() == 0 ==> a_b && !b_a,
        rest_a.len() > 0 && rest_a[0] < rest_b[0] ==> a_b && !b_a,
        rest_a.len() > 0 && rest_b[0] < rest_a[0] ==> b_a && !a_b,
{
    let i = common.len() as int;
    lemma_less_is_strict(a@, b@, a@);
    lemma_less_is_strict(b@, a@, b@);
    if rest_a.len() == 0 || rest_a[0] < rest_b[0] {
        assert(less_at(a@, b@, i));
        assert(less(a@, b@));
    } else if rest_b[0] < rest_a[0] {
        assert(less_at(b@, a@, i));
        assert(less(b@, a@));
    }
}

/// Two byte strings are told equal when they hold the same bytes.
pub proof fn law_equal_strings_are_told(a: &[u8], b: &[u8], equal: bool)
    requires
        call_ensures(is_equal, (a, b), equal),
    ensures
        equal <==> a@.len() == b@.len() && forall|i: int| 0 <= i < a@.len() ==> a@[i] == b@[i],
{
    assert(a@.len() == b@.len() && (forall|i: int| 0 <= i < a@.len() ==> a@[i] == b@[i]) ==> a@
        =~= b@);
}

/// A string starts with a prefix when it is the prefix followed by something.
pub proof fn law_prefix_is_told(key: &[u8], prefix: &[u8], starts: bool)
    requires
        call_ensures(has_prefix, (key, prefix), starts),
    ensures
        starts <==> exists|rest: Seq<u8>| key@ == #[trigger] (prefix@ + rest),
{
    if starts {
        let rest = key@.skip(prefix@.len() as int);
        assert(key@ =~= prefix@ + rest);
    }
    if exists|rest: Seq<u8>| key@ == #[trigger] (prefix@ + rest) {
        let rest = choose|rest: Seq<u8>| key@ == #[trigger] (prefix@ + rest);
        assert(prefix@ =~= (prefix@ + rest).subrange(0, prefix@.len() as int));
    }
}

/// Pieces are joined one after the other: no pieces give the empty string, and one more piece is
/// put at the end.
pub proof fn law_pieces_are_joined_in_order(
    pieces: Vec<Vec<u8>>,
    whole: Vec<u8>,
    more: Vec<Vec<u8>>,
    longer: Vec<u8>,
    piece: Seq<u8>,
)
    requires
        call_ensures(join_pieces, (&pieces,), whole),
        call_ensures(join_pieces, (&more,), longer),
        more.deep_view() == pieces.deep_view().push(piece),
    ensures
        pieces@.len() == 0 ==> whole@.len() == 0,
        longer@ == whole@ + piece,
{
    pieces.deep_view().lemma_flatten_push(piece);
}

/// A copy holds what the original holds.
pub proof fn law_copies_are_faithful(
    bytes: &[u8],
    copy: Vec<u8>,
    optional: Option<Vec<u8>>,
    optional_copy: Option<Vec<u8>>,
    pieces: Vec<Vec<u8>>,
    pieces_copy: Vec<Vec<u8>>,
)
    requires
        call_ensures(copy_bytes, (bytes,), copy),
        call_ensures(copy_optional_bytes, (&optional,), optional_copy),
        call_ensures(copy_pieces, (&pieces,), pieces_copy),
    ensures
        copy@ == bytes@,
        optional_copy.deep_view() == optional.deep_view(),
        pieces_copy.deep_view() == pieces.deep_view(),
{
}

/// Every number but zero can be wrapped, and comes out as it went in.
pub proof fn law_wrapped_number_comes_out(value: u32, wrapped: Option<NonZeroU32>, out: u32)
    requires
        call_ensures(NonZeroU32::new, (value,), wrapped),
        wrapped matches Some(number) ==> call_ensures(NonZeroU32::get, (&number,), out),
    ensures
        wrapped is None <==> value == 0,
        wrapped is Some ==> out == value,
{
}

} // verus!
