//! Joining a fan-out stage.
//!
//! Both concurrent stages (SBOM resolution and vulnerability scanning)
//! spawn one unit of work per source and join all of them. A failed unit
//! concerns its own source only: it is dropped from the batch, and every
//! other source keeps its result. This module turns the joined outcomes
//! into the map of successes.

use vstd::prelude::*;
use crate::config::Source;

verus! {

/// The successful outcomes among joined per-source results, in order:
/// exactly the pairs whose result is `Ok`, with the error entries gone.
pub open spec fn ok_pairs<T, E>(s: Seq<(Source, Result<T, E>)>) -> Seq<(Source, T)>
    decreases s.len(),
{
    if s.len() == 0 {
        Seq::<(Source, T)>::empty()
    } else {
        match s.first().1 {
            Ok(v) => seq![(s.first().0, v)] + ok_pairs(s.drop_first()),
            Err(_) => ok_pairs(s.drop_first()),
        }
    }
}

/// Partial failure isolation: a source stands in the collected map with
/// a value exactly when its own unit of work succeeded with that value.
/// No failure of another source removes it, and no failure adds an
/// entry.
pub proof fn lemma_collected_iff_succeeded<T, E>(
    s: Seq<(Source, Result<T, E>)>,
    src: Source,
    v: T,
)
    ensures
        ok_pairs(s).contains((src, v)) <==> s.contains((src, Ok(v))),
    decreases s.len(),
{
    broadcast use vstd::seq_lib::group_seq_properties;

    if s.len() == 0 {
    } else {
        lemma_collected_iff_succeeded(s.drop_first(), src, v);
        if s.contains((src, Ok(v))) {
            let i = choose|i: int| 0 <= i < s.len() && s[i] == (src, Ok::<T, E>(v));
            if i == 0 {
                assert(s.first() == (src, Ok::<T, E>(v)));
            } else {
                assert(s.drop_first()[i - 1] == (src, Ok::<T, E>(v)));
            }
        }
        if s.drop_first().contains((src, Ok(v))) {
            let i = choose|i: int|
                0 <= i < s.drop_first().len() && s.drop_first()[i] == (src, Ok::<T, E>(v));
            assert(s[i + 1] == (src, Ok::<T, E>(v)));
        }
        match s.first().1 {
            Ok(w) => {
                assert(seq![(s.first().0, w)].contains((src, v)) <==> (s.first().0, w) == (
                    src,
                    v,
                )) by {
                    if seq![(s.first().0, w)].contains((src, v)) {
                        let i = choose|i: int|
                            0 <= i < 1 && seq![(s.first().0, w)][i] == (src, v);
                        assert(i == 0);
                    } else {
                        assert(seq![(s.first().0, w)][0] == (s.first().0, w));
                    }
                }
                if s.first() == (src, Ok::<T, E>(v)) {
                    assert((s.first().0, w) == (src, v));
                }
            },
            Err(_) => {},
        }
    }
}

/// Joins a fan-out stage: keeps, in order, the result of every source
/// whose unit of work succeeded, and drops the sources that failed.
pub fn collect_successes<T, E>(results: Vec<(Source, Result<T, E>)>) -> (r: Vec<(Source, T)>)
    ensures
        r@ == ok_pairs(results@),
{
    let ghost orig = results@;
    let mut rest = results;
    let mut out: Vec<(Source, T)> = Vec::new();
    while rest.len() > 0
        invariant
            ok_pairs(orig) == out@ + ok_pairs(rest@),
        decreases rest@.len(),
    {
        let ghost pre = rest@;
        let (src, res) = rest.remove(0);
        proof {
            assert(pre.drop_first() =~= rest@);
        }
        match res {
            Ok(v) => {
                let ghost pre_out = out@;
                out.push((src, v));
                proof {
                    assert(ok_pairs(pre) == seq![(src, v)] + ok_pairs(rest@));
                    assert(out@ + ok_pairs(rest@) =~= pre_out + ok_pairs(pre));
                }
            },
            Err(_) => {},
        }
    }
    proof {
        assert(out@ + ok_pairs(rest@) =~= out@);
    }
    out
}

} // verus!
