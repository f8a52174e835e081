//! Source registry: turns raw container records into a duplicate-free
//! list of scan targets.
//!
//! Records with identical fields stand for the same target and collapse
//! to one entry; the first occurrence keeps its place, so the output
//! order is deterministic. Connecting to the container runtime is the
//! caller's business: this module only shapes what the runtime returned.

use vstd::prelude::*;
use crate::config::{Source, SourceView};
use crate::distinct::{
    dedup_firsts, lemma_dedup_firsts_count_once, lemma_dedup_firsts_members,
    lemma_dedup_firsts_no_duplicates,
};

verus! {

/// The targets of `s` as mathematical values.
pub open spec fn source_views(s: Seq<Source>) -> Seq<SourceView> {
    s.map_values(|t: Source| t@)
}

/// `s` with every later repetition removed: the first occurrence of each
/// target is kept, in first-seen order.
pub open spec fn dedup_views(s: Seq<SourceView>) -> Seq<SourceView> {
    dedup_firsts(s)
}

/// Deduplication keeps exactly the targets that occur in the input.
pub proof fn lemma_dedup_same_members(s: Seq<SourceView>, x: SourceView)
    ensures
        dedup_views(s).contains(x) <==> s.contains(x),
{
    lemma_dedup_firsts_members(s, x);
}

/// Deduplication leaves no target twice.
pub proof fn lemma_dedup_no_duplicates(s: Seq<SourceView>)
    ensures
        dedup_views(s).no_duplicates(),
{
    lemma_dedup_firsts_no_duplicates(s);
}

/// Records with identical fields yield exactly one registry entry,
/// whatever order they arrive in: after deduplication a target occurs
/// once if the input holds it at all, and never otherwise.
pub proof fn lemma_dedup_counts_each_target_once(s: Seq<SourceView>, x: SourceView)
    ensures
        dedup_views(s).to_multiset().count(x) == if s.contains(x) {
            1nat
        } else {
            0nat
        },
{
    lemma_dedup_firsts_count_once(s, x);
}

/// Whether one of the targets in `v` equals `x`.
fn vec_contains_source(v: &Vec<Source>, x: &Source) -> (r: bool)
    ensures
        r == source_views(v@).contains(x@),
{
    let mut i: usize = 0;
    while i < v.len()
        invariant
            0 <= i <= v@.len(),
            forall|j: int| 0 <= j < i ==> v@[j]@ != x@,
        decreases v@.len() - i,
    {
        if v[i] == *x {
            assert(source_views(v@)[i as int] == x@);
            return true;
        }
        i = i + 1;
    }
    assert(forall|j: int| 0 <= j < source_views(v@).len() ==> source_views(v@)[j] != x@);
    false
}

/// Removes duplicate targets, keeping the first occurrence of each in
/// first-seen order.
pub fn dedup_sources(records: Vec<Source>) -> (r: Vec<Source>)
    ensures
        source_views(r@) == dedup_views(source_views(records@)),
{
    let ghost all = source_views(records@);
    let mut out: Vec<Source> = Vec::new();
    let mut i: usize = 0;
    while i < records.len()
        invariant
            0 <= i <= records@.len(),
            all == source_views(records@),
            source_views(out@) == dedup_views(all.take(i as int)),
        decreases records@.len() - i,
    {
        proof {
            assert(all.take(i as int + 1).drop_last() =~= all.take(i as int));
            assert(all.take(i as int + 1).last() == records@[i as int]@);
        }
        if !vec_contains_source(&out, &records[i]) {
            let ghost old_out = out@;
            out.push(records[i].clone());
            proof {
                assert(source_views(out@) =~= source_views(old_out).push(records@[i as int]@));
            }
        }
        i = i + 1;
    }
    proof {
        assert(all.take(records@.len() as int) =~= all);
    }
    out
}

/// The source registry itself: the image targets that the raw container
/// records describe, duplicates removed, first-seen order kept.
pub fn collect_sources(records: Vec<(Option<String>, Option<String>)>) -> (r: Vec<Source>)
    ensures
        source_views(r@) == dedup_views(record_views(records@)),
{
    let ghost all = record_views(records@);
    let mut sources: Vec<Source> = Vec::new();
    let mut i: usize = 0;
    while i < records.len()
        invariant
            0 <= i <= records@.len(),
            all == record_views(records@),
            source_views(sources@) == all.take(i as int),
        decreases records@.len() - i,
    {
        let image = match &records[i].0 {
            Some(s) => Some(s.clone()),
            None => None,
        };
        let image_id = match &records[i].1 {
            Some(s) => Some(s.clone()),
            None => None,
        };
        let ghost old_sources = sources@;
        sources.push(Source::from_record(image, image_id));
        proof {
            assert(source_views(sources@) =~= source_views(old_sources).push(
                record_views(records@)[i as int],
            ));
            assert(source_views(sources@) =~= all.take(i as int + 1));
        }
        i = i + 1;
    }
    proof {
        assert(all.take(records@.len() as int) =~= all);
    }
    dedup_sources(sources)
}

/// The image target that each raw record stands for.
pub open spec fn record_views(records: Seq<(Option<String>, Option<String>)>) -> Seq<SourceView> {
    records.map_values(
        |rec: (Option<String>, Option<String>)|
            (SourceView::DockerImage {
                name: crate::config::field_or_empty(rec.0),
                id: crate::config::field_or_empty(rec.1),
            }),
    )
}

} // verus!
