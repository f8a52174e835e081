//! First occurrences and multiplicities over sequences.
//!
//! Both the source registry (which collapses duplicate targets) and the
//! metrics aggregation (which counts how often each label set occurs)
//! reduce a sequence to its distinct elements in first-seen order. The
//! spec-level machinery for that reduction lives here.

use vstd::prelude::*;

verus! {

/// `s` with every later repetition removed: the first occurrence of each
/// element is kept, in first-seen order.
pub open spec fn dedup_firsts<T>(s: Seq<T>) -> Seq<T>
    decreases s.len(),
{
    if s.len() == 0 {
        Seq::<T>::empty()
    } else {
        let prefix = dedup_firsts(s.drop_last());
        if prefix.contains(s.last()) {
            prefix
        } else {
            prefix.push(s.last())
        }
    }
}

/// Removing repetitions keeps exactly the elements that occur.
pub proof fn lemma_dedup_firsts_members<T>(s: Seq<T>, x: T)
    ensures
        dedup_firsts(s).contains(x) <==> s.contains(x),
    decreases s.len(),
{
    broadcast use vstd::seq_lib::group_seq_properties;

    if s.len() == 0 {
    } else {
        lemma_dedup_firsts_members(s.drop_last(), x);
        if s.contains(x) {
            let i = choose|i: int| 0 <= i < s.len() && s[i] == x;
            if i < s.len() - 1 {
                assert(s.drop_last()[i] == x);
            }
        }
        if s.drop_last().contains(x) {
            let i = choose|i: int| 0 <= i < s.drop_last().len() && s.drop_last()[i] == x;
            assert(s[i] == x);
        }
    }
}

/// Removing repetitions leaves no element twice.
pub proof fn lemma_dedup_firsts_no_duplicates<T>(s: Seq<T>)
    ensures
        dedup_firsts(s).no_duplicates(),
    decreases s.len(),
{
    if s.len() == 0 {
    } else {
        let prefix = dedup_firsts(s.drop_last());
        lemma_dedup_firsts_no_duplicates(s.drop_last());
        if !prefix.contains(s.last()) {
            assert forall|i: int, j: int|
                0 <= i < prefix.push(s.last()).len() && 0 <= j < prefix.push(s.last()).len() && i
                    != j implies prefix.push(s.last())[i] != prefix.push(s.last())[j] by {
                if i < prefix.len() && j < prefix.len() {
                } else if j == prefix.len() && i < prefix.len() {
                    assert(prefix.contains(prefix[i]));
                } else if i == prefix.len() && j < prefix.len() {
                    assert(prefix.contains(prefix[j]));
                }
            }
        }
    }
}

/// After removing repetitions an element occurs once if the input holds
/// it at all, and never otherwise.
pub proof fn lemma_dedup_firsts_count_once<T>(s: Seq<T>, x: T)
    ensures
        dedup_firsts(s).to_multiset().count(x) == if s.contains(x) {
            1nat
        } else {
            0nat
        },
{
    broadcast use vstd::seq_lib::group_to_multiset_ensures;

    lemma_dedup_firsts_members(s, x);
    lemma_dedup_firsts_no_duplicates(s);
    dedup_firsts(s).lemma_multiset_has_no_duplicates();
}

/// How often each distinct row of `rows` occurs: the distinct rows in
/// first-seen order, each paired with its multiplicity.
pub open spec fn tally<T>(rows: Seq<T>) -> Seq<(T, nat)> {
    dedup_firsts(rows).map_values(|x: T| (x, rows.to_multiset().count(x)))
}

} // verus!
