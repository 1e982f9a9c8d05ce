//! Listings of keys: their normal order, and when two of them name the same
//! keys.

use vstd::prelude::*;
use vstd::relations::{sorted_by, total_ordering};
use vstd::seq_lib::lemma_sorted_unique;

verus! {

/// The order of keys: character by character by code point, a prefix first.
pub open spec fn key_le(a: Seq<char>, b: Seq<char>) -> bool
    decreases a.len(),
{
    if a.len() == 0 {
        true
    } else if b.len() == 0 {
        false
    } else if a[0] == b[0] {
        key_le(a.drop_first(), b.drop_first())
    } else {
        a[0] < b[0]
    }
}

/// `key_le` as a relation.
pub open spec fn key_order() -> spec_fn(Seq<char>, Seq<char>) -> bool {
    |a: Seq<char>, b: Seq<char>| key_le(a, b)
}

/// A listing in ascending order of its keys.
pub open spec fn sorted_keys(keys: Seq<Seq<char>>) -> bool {
    sorted_by(keys, key_order())
}

/// Two listings that name the same keys as often, in any order.
pub open spec fn same_keys(a: Seq<Seq<char>>, b: Seq<Seq<char>>) -> bool {
    a.to_multiset() == b.to_multiset()
}

/// Every key is at most itself.
proof fn key_le_reflexive(a: Seq<char>)
    ensures
        key_le(a, a),
    decreases a.len(),
{
    if a.len() > 0 {
        key_le_reflexive(a.drop_first());
    }
}

/// Two keys that are each at most the other are one key.
proof fn key_le_antisymmetric(a: Seq<char>, b: Seq<char>)
    requires
        key_le(a, b),
        key_le(b, a),
    ensures
        a == b,
    decreases a.len(),
{
    if a.len() == 0 || b.len() == 0 {
        assert(a =~= b);
    } else {
        key_le_antisymmetric(a.drop_first(), b.drop_first());
        assert(a =~= seq![a[0]] + a.drop_first());
        assert(b =~= seq![b[0]] + b.drop_first());
    }
}

/// The order of keys carries over a key in between.
proof fn key_le_transitive(a: Seq<char>, b: Seq<char>, c: Seq<char>)
    requires
        key_le(a, b),
        key_le(b, c),
    ensures
        key_le(a, c),
    decreases a.len(),
{
    if a.len() > 0 && a[0] == b[0] && b[0] == c[0] {
        key_le_transitive(a.drop_first(), b.drop_first(), c.drop_first());
    }
}

/// Of two keys one is at most the other.
proof fn key_le_total(a: Seq<char>, b: Seq<char>)
    ensures
        key_le(a, b) || key_le(b, a),
    decreases a.len(),
{
    if a.len() > 0 && b.len() > 0 {
        if a[0] == b[0] {
            key_le_total(a.drop_first(), b.drop_first());
        }
    }
}

/// The order of keys is a total order.
pub proof fn key_order_is_total()
    ensures
        total_ordering(key_order()),
{
    let r = key_order();
    assert forall|x: Seq<char>| #[trigger] r(x, x) by {
        key_le_reflexive(x);
    }
    assert forall|x: Seq<char>, y: Seq<char>| #[trigger] r(x, y) && #[trigger] r(y, x) implies x
        == y by {
        key_le_antisymmetric(x, y);
    }
    assert forall|x: Seq<char>, y: Seq<char>, z: Seq<char>| #[trigger]
        r(x, y) && #[trigger] r(y, z) implies r(x, z) by {
        key_le_transitive(x, y, z);
    }
    assert forall|x: Seq<char>, y: Seq<char>| #[trigger] r(x, y) || #[trigger] r(y, x) by {
        key_le_total(x, y);
    }
}

/// Two sorted listings name the same keys exactly when they are equal.
pub proof fn sorted_listings_agree(a: Seq<Seq<char>>, b: Seq<Seq<char>>)
    requires
        sorted_keys(a),
        sorted_keys(b),
    ensures
        same_keys(a, b) <==> a == b,
{
    if same_keys(a, b) {
        key_order_is_total();
        lemma_sorted_unique(a, b, key_order());
    }
}

/// Calls `sort` of the slice of `String`s, which orders strings by their
/// bytes and so by code point. Trusted: the result holds the same keys as
/// often, in ascending order.
#[verifier::external_body]
fn sort_strings(keys: &mut Vec<String>)
    ensures
        same_keys(final(keys).deep_view(), old(keys).deep_view()),
        sorted_keys(final(keys).deep_view()),
{
    keys.sort();
}

/// The listing in its normal order.
pub fn sort_keys(keys: Vec<String>) -> (sorted: Vec<String>)
    ensures
        same_keys(sorted.deep_view(), keys.deep_view()),
        sorted_keys(sorted.deep_view()),
{
    let mut sorted = keys;
    sort_strings(&mut sorted);
    sorted
}

/// Whether two listings are equal key by key.
pub fn equal_listings(a: &Vec<String>, b: &Vec<String>) -> (equal: bool)
    ensures
        equal == (a.deep_view() == b.deep_view()),
{
    assert(a.deep_view().len() == a.len() && b.deep_view().len() == b.len());
    if a.len() != b.len() {
        return false;
    }
    let mut i: usize = 0;
    while i < a.len()
        invariant
            i <= a.len(),
            a.len() == b.len(),
            forall|j: int| 0 <= j < i ==> a.deep_view()[j] == b.deep_view()[j],
        decreases a.len() - i,
    {
        assert(a.deep_view()[i as int] == a[i as int]@ && b.deep_view()[i as int] == b[i as int]@);
        if !(a[i] == b[i]) {
            return false;
        }
        i += 1;
    }
    assert(a.deep_view() =~= b.deep_view());
    true
}

/// Whether a listing names the key.
pub fn contains_key(keys: &Vec<String>, key: &str) -> (found: bool)
    ensures
        found == keys.deep_view().contains(key@),
{
    let wanted = key.to_owned();
    assert(keys.deep_view().len() == keys.len());
    let mut i: usize = 0;
    while i < keys.len()
        invariant
            i <= keys.len(),
            wanted@ == key@,
            keys.deep_view().len() == keys.len(),
            forall|j: int| 0 <= j < i ==> keys.deep_view()[j] != key@,
        decreases keys.len() - i,
    {
        assert(keys.deep_view()[i as int] == keys[i as int]@);
        if keys[i] == wanted {
            return true;
        }
        i += 1;
    }
    false
}

} // verus!
