//! The held-key set behind the note/gate tracker: an insertion-ordered set
//! from the `linked_hash_set` crate, seen by the verifier as a sequence of
//! distinct keys in press order.
//!
//! The contents of a set are named by [`held_keys`]; each method the tracker
//! calls has a wrapper whose contract states, over that name, what the
//! crate's source shows. `insert` places a key at the back of the ordering
//! whether or not it was already present, `remove` drops a key without
//! disturbing the order of the others, and `back` is the most recently
//! inserted key — which is what gives the tracker last-note priority.

use vstd::prelude::*;
use linked_hash_set::LinkedHashSet;
use std::collections::hash_map::RandomState;

verus! {

#[verifier::external_type_specification]
#[verifier::external_body]
#[verifier::reject_recursive_types(T)]
#[verifier::reject_recursive_types(S)]
pub struct ExLinkedHashSet<T, S>(LinkedHashSet<T, S>);

/// The keys a set holds, in insertion order, oldest first.
pub uninterp spec fn held_keys(s: LinkedHashSet<i32, RandomState>) -> Seq<i32>;

/// Relies on `linked_hash_set::LinkedHashSet::default`: a new set is empty.
#[verifier::external_body]
pub fn held_new() -> (s: LinkedHashSet<i32>)
    ensures
        held_keys(s) == Seq::<i32>::empty(),
{
    LinkedHashSet::default()
}

/// Relies on `linked_hash_set::LinkedHashSet::insert`: the value is placed
/// at the back of the ordering whether or not the set already contained it,
/// and the call returns true iff it was absent.
#[verifier::external_body]
pub fn held_insert(s: &mut LinkedHashSet<i32>, key: i32) -> (was_absent: bool)
    ensures
        held_keys(*final(s)) == held_keys(*old(s)).remove_value(key).push(key),
        was_absent == !held_keys(*old(s)).contains(key),
{
    s.insert(key)
}

/// Relies on `linked_hash_set::LinkedHashSet::remove`: the value leaves the
/// set, the ordering of the other elements is unaffected, and the call
/// returns true iff the value was present.
#[verifier::external_body]
pub fn held_remove(s: &mut LinkedHashSet<i32>, key: i32) -> (was_present: bool)
    ensures
        held_keys(*final(s)) == held_keys(*old(s)).remove_value(key),
        was_present == held_keys(*old(s)).contains(key),
{
    s.remove(&key)
}

/// Relies on `linked_hash_set::LinkedHashSet::is_empty`: true iff the set
/// holds no element.
#[verifier::external_body]
pub fn held_is_empty(s: &LinkedHashSet<i32>) -> (r: bool)
    ensures
        r == (held_keys(*s).len() == 0),
{
    s.is_empty()
}

/// Relies on `linked_hash_set::LinkedHashSet::back`: the most recently
/// inserted entry, or `None` on an empty set.
#[verifier::external_body]
pub fn held_back(s: &LinkedHashSet<i32>) -> (r: Option<i32>)
    ensures
        r == if held_keys(*s).len() == 0 {
            None::<i32>
        } else {
            Some(held_keys(*s).last())
        },
{
    s.back().copied()
}

/// What removing one value does to a duplicate-free sequence: the result is
/// still duplicate-free, no longer contains the value, keeps every other
/// element, and shrinks by exactly one when the value was present.
pub proof fn lemma_remove_value(s: Seq<i32>, k: i32)
    requires
        s.no_duplicates(),
    ensures
        s.remove_value(k).no_duplicates(),
        !s.remove_value(k).contains(k),
        !s.contains(k) ==> s.remove_value(k) == s,
        s.contains(k) ==> s.remove_value(k).len() == s.len() - 1,
        forall|j: i32| j != k ==> (s.remove_value(k).contains(j) == s.contains(j)),
        forall|x: i32| s.remove_value(k).contains(x) ==> s.contains(x),
{
    s.index_of_first_ensures(k);
    if s.contains(k) {
        let i = s.index_of_first(k).unwrap();
        s.remove_ensures(i);
        let r = s.remove(i);
        assert forall|p: int, q: int| 0 <= p < q < r.len() implies r[p] != r[q] by {
            let sp: int = if p < i { p } else { p + 1 };
            let sq: int = if q < i { q } else { q + 1 };
            assert(r[p] == s[sp]);
            assert(r[q] == s[sq]);
        }
        assert forall|j: int| 0 <= j < r.len() implies r[j] != k by {
            let sj: int = if j < i { j } else { j + 1 };
            assert(r[j] == s[sj]);
            assert(s[sj] != s[i] || sj == i);
        }
        assert forall|j: i32| j != k && s.contains(j) implies r.contains(j) by {
            let w = choose|w: int| 0 <= w < s.len() && s[w] == j;
            if w < i {
                assert(r[w] == j);
            } else {
                assert(w > i);
                assert(r[w - 1] == j);
            }
        }
        assert forall|x: i32| r.contains(x) implies s.contains(x) by {
            let w = choose|w: int| 0 <= w < r.len() && r[w] == x;
            let sw: int = if w < i { w } else { w + 1 };
            assert(s[sw] == x);
        }
    }
}

} // verus!
