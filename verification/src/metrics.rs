//! Metrics aggregation: flattens the correlated `{source, SBOM}` and
//! `{source, report}` pairs into label-keyed counters.
//!
//! Two counter families come out of a run. The SBOM family counts one
//! increment per package `(name, version)` pair observed across all
//! sources; entries with an empty version carry no actionable signal and
//! are skipped. The vulnerability family counts one increment per
//! `(vulnerability, artifact)` match, labeled with the severity, the
//! joined reference URLs, the fix state and its versions, a synthesized
//! title, the best-available CVSS triple (the first scoring record's
//! values, or the literal `undefined` three times when the vulnerability
//! carries no scoring record), the scan date, and the source
//! attribution. Encoding the families to the text exposition format and
//! writing the file stay with the caller.

use vstd::prelude::*;
use vstd::string::*;
use crate::config::{Config, Source, SourceView, default_metrics_path};
use crate::distinct::{dedup_firsts, tally};
use crate::sbom::{Sbom, SbomView, SbomEntryView};
use crate::scan::{Cvss, CvssView, Scan, ScanView, ScanEntryView, fix_state_label};

verus! {

/// Source attribution of a counter: exactly the fields that apply to the
/// source's variant, the rest absent.
#[derive(Debug)]
pub struct SourceLabels {
    pub image: Option<String>,
    pub id: Option<String>,
    pub path: Option<String>,
}

/// Mathematical value of a `SourceLabels`.
pub struct SourceLabelsView {
    pub image: Option<Seq<char>>,
    pub id: Option<Seq<char>>,
    pub path: Option<Seq<char>>,
}

/// Mathematical value of an optional label field.
pub open spec fn opt_view(o: Option<String>) -> Option<Seq<char>> {
    match o {
        Some(s) => Some(s@),
        None => None,
    }
}

impl View for SourceLabels {
    type V = SourceLabelsView;

    open spec fn view(&self) -> SourceLabelsView {
        SourceLabelsView {
            image: opt_view(self.image),
            id: opt_view(self.id),
            path: opt_view(self.path),
        }
    }
}

/// Whether two optional label fields hold the same value.
fn opt_eq(a: &Option<String>, b: &Option<String>) -> (r: bool)
    ensures
        r == (opt_view(*a) == opt_view(*b)),
{
    match (a, b) {
        (Some(x), Some(y)) => *x == *y,
        (None, None) => true,
        _ => false,
    }
}

impl PartialEq for SourceLabels {
    fn eq(&self, other: &SourceLabels) -> (r: bool) {
        opt_eq(&self.image, &other.image) && opt_eq(&self.id, &other.id) && opt_eq(
            &self.path,
            &other.path,
        )
    }
}

impl vstd::std_specs::cmp::PartialEqSpecImpl for SourceLabels {
    open spec fn obeys_eq_spec() -> bool {
        true
    }

    open spec fn eq_spec(&self, other: &SourceLabels) -> bool {
        self@ == other@
    }
}

impl Clone for SourceLabels {
    fn clone(&self) -> (r: SourceLabels)
        ensures
            r@ == self@,
    {
        SourceLabels {
            image: match &self.image {
                Some(s) => Some(s.clone()),
                None => None,
            },
            id: match &self.id {
                Some(s) => Some(s.clone()),
                None => None,
            },
            path: match &self.path {
                Some(s) => Some(s.clone()),
                None => None,
            },
        }
    }
}

/// The source attribution of a target: an image carries its name and id,
/// a host directory its path.
pub open spec fn source_labels_of(s: SourceView) -> SourceLabelsView {
    match s {
        SourceView::DockerImage { name, id } => SourceLabelsView {
            image: Some(name),
            id: Some(id),
            path: None,
        },
        SourceView::HostDirectory { path } => SourceLabelsView {
            image: None,
            id: None,
            path: Some(path),
        },
    }
}

impl SourceLabels {
    /// Flattens a target into its attribution label set.
    pub fn of_source(source: &Source) -> (r: SourceLabels)
        ensures
            r@ == source_labels_of(source@),
    {
        match source {
            Source::DockerImage { name, id } => SourceLabels {
                image: Some(name.clone()),
                id: Some(id.clone()),
                path: None,
            },
            Source::HostDirectory { path } => SourceLabels {
                image: None,
                id: None,
                path: Some(path.clone()),
            },
        }
    }
}

impl From<Source> for SourceLabels {
    fn from(source: Source) -> (r: SourceLabels)
        ensures
            r@ == source_labels_of(source@),
    {
        SourceLabels::of_source(&source)
    }
}

impl vstd::std_specs::convert::FromSpecImpl<Source> for SourceLabels {
    open spec fn obeys_from_spec() -> bool {
        false
    }

    open spec fn from_spec(source: Source) -> SourceLabels {
        vstd::pervasive::arbitrary()
    }
}

/// Labels of one SBOM-family counter: the package, its version, and the
/// source it was observed in.
#[derive(Debug)]
pub struct SbomLabels {
    pub software: String,
    pub version: String,
    pub source: SourceLabels,
}

/// Mathematical value of an `SbomLabels`.
pub struct SbomLabelsView {
    pub software: Seq<char>,
    pub version: Seq<char>,
    pub source: SourceLabelsView,
}

impl View for SbomLabels {
    type V = SbomLabelsView;

    open spec fn view(&self) -> SbomLabelsView {
        SbomLabelsView {
            software: self.software@,
            version: self.version@,
            source: self.source@,
        }
    }
}

impl PartialEq for SbomLabels {
    fn eq(&self, other: &SbomLabels) -> (r: bool) {
        self.software == other.software && self.version == other.version && self.source
            == other.source
    }
}

impl vstd::std_specs::cmp::PartialEqSpecImpl for SbomLabels {
    open spec fn obeys_eq_spec() -> bool {
        true
    }

    open spec fn eq_spec(&self, other: &SbomLabels) -> bool {
        self@ == other@
    }
}

/// Labels of one vulnerability-family counter.
#[derive(Debug)]
pub struct ScanLabels {
    pub cve: String,
    pub cvss_base_score: String,
    pub cvss_exploitability_score: String,
    pub cvss_impact_score: String,
    pub severity: String,
    pub urls: String,
    pub software: String,
    pub fixed: String,
    pub fixed_versions: String,
    pub scan_date: String,
    pub title: String,
    pub source: SourceLabels,
}

/// Mathematical value of a `ScanLabels`.
pub struct ScanLabelsView {
    pub cve: Seq<char>,
    pub cvss_base_score: Seq<char>,
    pub cvss_exploitability_score: Seq<char>,
    pub cvss_impact_score: Seq<char>,
    pub severity: Seq<char>,
    pub urls: Seq<char>,
    pub software: Seq<char>,
    pub fixed: Seq<char>,
    pub fixed_versions: Seq<char>,
    pub scan_date: Seq<char>,
    pub title: Seq<char>,
    pub source: SourceLabelsView,
}

impl View for ScanLabels {
    type V = ScanLabelsView;

    open spec fn view(&self) -> ScanLabelsView {
        ScanLabelsView {
            cve: self.cve@,
            cvss_base_score: self.cvss_base_score@,
            cvss_exploitability_score: self.cvss_exploitability_score@,
            cvss_impact_score: self.cvss_impact_score@,
            severity: self.severity@,
            urls: self.urls@,
            software: self.software@,
            fixed: self.fixed@,
            fixed_versions: self.fixed_versions@,
            scan_date: self.scan_date@,
            title: self.title@,
            source: self.source@,
        }
    }
}

impl PartialEq for ScanLabels {
    fn eq(&self, other: &ScanLabels) -> (r: bool) {
        self.cve == other.cve && self.cvss_base_score == other.cvss_base_score
            && self.cvss_exploitability_score == other.cvss_exploitability_score
            && self.cvss_impact_score == other.cvss_impact_score && self.severity
            == other.severity && self.urls == other.urls && self.software == other.software
            && self.fixed == other.fixed && self.fixed_versions == other.fixed_versions
            && self.scan_date == other.scan_date && self.title == other.title && self.source
            == other.source
    }
}

impl vstd::std_specs::cmp::PartialEqSpecImpl for ScanLabels {
    open spec fn obeys_eq_spec() -> bool {
        true
    }

    open spec fn eq_spec(&self, other: &ScanLabels) -> bool {
        self@ == other@
    }
}

/// The label values joined with a comma and a space, in order.
pub open spec fn join_comma(items: Seq<Seq<char>>) -> Seq<char>
    decreases items.len(),
{
    if items.len() == 0 {
        Seq::<char>::empty()
    } else if items.len() == 1 {
        items[0]
    } else {
        join_comma(items.drop_last()) + ", "@ + items.last()
    }
}

/// Joins label values with `", "`.
pub fn join_with_comma(items: &Vec<String>) -> (r: String)
    ensures
        r@ == join_comma(items.deep_view()),
{
    let ghost all = items.deep_view();
    let mut r = String::new();
    let mut i: usize = 0;
    while i < items.len()
        invariant
            0 <= i <= items@.len(),
            all == items.deep_view(),
            r@ == join_comma(all.take(i as int)),
        decreases items@.len() - i,
    {
        proof {
            assert(all.take(i as int + 1).drop_last() =~= all.take(i as int));
            assert(all.take(i as int + 1).last() == all[i as int]);
        }
        if i > 0 {
            r.append(", ");
        }
        r.append(items[i].as_str());
        proof {
            if i == 0 {
                assert(r@ =~= all[0]);
                assert(all.take(1)[0] == all[0]);
            }
        }
        i = i + 1;
    }
    proof {
        assert(all.take(items@.len() as int) =~= all);
    }
    r
}

/// The synthesized human-readable title of a vulnerability match:
/// `"<image> <package>: <id>"`, with an absent image name standing in as
/// the empty string.
pub open spec fn title_of(image: Option<Seq<char>>, artifact: Seq<char>, id: Seq<char>) -> Seq<
    char,
> {
    (match image {
        Some(s) => s,
        None => Seq::<char>::empty(),
    }) + " "@ + artifact + ": "@ + id
}

/// Builds the title label of one match.
pub fn make_title(image: &Option<String>, artifact: &String, id: &String) -> (r: String)
    ensures
        r@ == title_of(opt_view(*image), artifact@, id@),
{
    let mut r = match image {
        Some(s) => s.clone(),
        None => String::new(),
    };
    r.append(" ");
    r.append(artifact.as_str());
    r.append(": ");
    r.append(id.as_str());
    r
}

/// The CVSS label triple of a vulnerability: the first scoring record's
/// base, exploitability and impact scores, or the literal `undefined`
/// three times when the vulnerability carries no scoring record.
pub open spec fn cvss_triple(cvss: Seq<CvssView>) -> (Seq<char>, Seq<char>, Seq<char>) {
    if cvss.len() == 0 {
        ("undefined"@, "undefined"@, "undefined"@)
    } else {
        (
            cvss[0].metrics.base_score,
            cvss[0].metrics.exploitability_score,
            cvss[0].metrics.impact_score,
        )
    }
}

/// Builds the CVSS label triple of one vulnerability.
pub fn cvss_label_triple(cvss: &Vec<Cvss>) -> (r: (String, String, String))
    ensures
        (r.0@, r.1@, r.2@) == cvss_triple(cvss@.map_values(|c: Cvss| c@)),
{
    if cvss.len() == 0 {
        ("undefined".to_owned(), "undefined".to_owned(), "undefined".to_owned())
    } else {
        (
            cvss[0].metrics.base_score.clone(),
            cvss[0].metrics.exploitability_score.clone(),
            cvss[0].metrics.impact_score.clone(),
        )
    }
}

} // verus!

verus! {

impl Clone for SbomLabels {
    fn clone(&self) -> (r: SbomLabels)
        ensures
            r@ == self@,
    {
        SbomLabels {
            software: self.software.clone(),
            version: self.version.clone(),
            source: self.source.clone(),
        }
    }
}

impl Clone for ScanLabels {
    fn clone(&self) -> (r: ScanLabels)
        ensures
            r@ == self@,
    {
        ScanLabels {
            cve: self.cve.clone(),
            cvss_base_score: self.cvss_base_score.clone(),
            cvss_exploitability_score: self.cvss_exploitability_score.clone(),
            cvss_impact_score: self.cvss_impact_score.clone(),
            severity: self.severity.clone(),
            urls: self.urls.clone(),
            software: self.software.clone(),
            fixed: self.fixed.clone(),
            fixed_versions: self.fixed_versions.clone(),
            scan_date: self.scan_date.clone(),
            title: self.title.clone(),
            source: self.source.clone(),
        }
    }
}

/// The counters as mathematical values: each label set with its count.
pub open spec fn counted_views<T: View>(r: Seq<(T, u64)>) -> Seq<(T::V, nat)> {
    r.map_values(|p: (T, u64)| (p.0@, p.1 as nat))
}

/// The SBOM-family label rows of one source's package list: one row per
/// package whose version is nonempty, in package order.
pub open spec fn sbom_rows_of(source: SourceView, packages: Seq<SbomEntryView>) -> Seq<
    SbomLabelsView,
>
    decreases packages.len(),
{
    if packages.len() == 0 {
        Seq::<SbomLabelsView>::empty()
    } else {
        let rest = sbom_rows_of(source, packages.drop_last());
        if packages.last().version_info.len() > 0 {
            rest.push(
                SbomLabelsView {
                    software: packages.last().name,
                    version: packages.last().version_info,
                    source: source_labels_of(source),
                },
            )
        } else {
            rest
        }
    }
}

/// The resolved pairs as mathematical values.
pub open spec fn sbom_pair_views(pairs: Seq<(Source, Sbom)>) -> Seq<(SourceView, SbomView)> {
    pairs.map_values(|p: (Source, Sbom)| (p.0@, p.1@))
}

/// All SBOM-family label rows of a batch, source by source.
pub open spec fn sbom_label_rows(pairs: Seq<(SourceView, SbomView)>) -> Seq<SbomLabelsView>
    decreases pairs.len(),
{
    if pairs.len() == 0 {
        Seq::<SbomLabelsView>::empty()
    } else {
        sbom_label_rows(pairs.drop_last()) + sbom_rows_of(
            pairs.last().0,
            pairs.last().1.packages,
        )
    }
}

/// Builds every SBOM-family label row of the batch, in order.
fn build_sbom_rows(sboms: &Vec<(Source, Sbom)>) -> (rows: Vec<SbomLabels>)
    ensures
        rows@.map_values(|l: SbomLabels| l@) == sbom_label_rows(sbom_pair_views(sboms@)),
{
    let ghost all = sbom_pair_views(sboms@);
    let mut rows: Vec<SbomLabels> = Vec::new();
    let mut i: usize = 0;
    while i < sboms.len()
        invariant
            0 <= i <= sboms@.len(),
            all == sbom_pair_views(sboms@),
            rows@.map_values(|l: SbomLabels| l@) == sbom_label_rows(all.take(i as int)),
        decreases sboms@.len() - i,
    {
        let src_labels = SourceLabels::of_source(&sboms[i].0);
        let packages = &sboms[i].1.packages;
        let ghost pkgs = all[i as int].1.packages;
        let ghost outer = sbom_label_rows(all.take(i as int));
        proof {
            assert(all.take(i as int + 1).drop_last() =~= all.take(i as int));
            assert(all.take(i as int + 1).last() == all[i as int]);
            assert(pkgs == packages@.map_values(|e: crate::sbom::SbomEntry| e@));
        }
        let mut j: usize = 0;
        while j < packages.len()
            invariant
                0 <= j <= packages@.len(),
                pkgs == packages@.map_values(|e: crate::sbom::SbomEntry| e@),
                src_labels@ == source_labels_of(all[i as int].0),
                0 <= i < all.len(),
                outer == sbom_label_rows(all.take(i as int)),
                rows@.map_values(|l: SbomLabels| l@) == outer + sbom_rows_of(
                    all[i as int].0,
                    pkgs.take(j as int),
                ),
            decreases packages@.len() - j,
        {
            proof {
                assert(pkgs.take(j as int + 1).drop_last() =~= pkgs.take(j as int));
                assert(pkgs.take(j as int + 1).last() == pkgs[j as int]);
            }
            if !packages[j].versionInfo.as_str().is_empty() {
                let ghost before = rows@.map_values(|l: SbomLabels| l@);
                rows.push(
                    SbomLabels {
                        software: packages[j].name.clone(),
                        version: packages[j].versionInfo.clone(),
                        source: src_labels.clone(),
                    },
                );
                proof {
                    assert(rows@.map_values(|l: SbomLabels| l@) =~= before.push(
                        SbomLabelsView {
                            software: pkgs[j as int].name,
                            version: pkgs[j as int].version_info,
                            source: source_labels_of(all[i as int].0),
                        },
                    ));
                }
            }
            j = j + 1;
        }
        proof {
            assert(pkgs.take(packages@.len() as int) =~= pkgs);
        }
        i = i + 1;
    }
    proof {
        assert(all.take(sboms@.len() as int) =~= all);
    }
    rows
}

} // verus!

verus! {

/// Index of the counter whose labels equal `x`, or none.
fn find_sbom_key(out: &Vec<(SbomLabels, u64)>, x: &SbomLabels) -> (r: Option<usize>)
    ensures
        match r {
            Some(k) => (k as int) < out@.len() && out@[k as int].0@ == x@,
            None => forall|k: int| 0 <= k < out@.len() ==> out@[k].0@ != x@,
        },
{
    let mut k: usize = 0;
    while k < out.len()
        invariant
            0 <= k <= out@.len(),
            forall|j: int| 0 <= j < k ==> out@[j].0@ != x@,
        decreases out@.len() - k,
    {
        if out[k].0 == *x {
            return Some(k);
        }
        k = k + 1;
    }
    None
}

/// Counts how often each distinct label set occurs among `rows`: one
/// counter per distinct label set, in first-seen order, whose count is
/// the label set's number of occurrences.
fn tally_sbom_rows(rows: Vec<SbomLabels>) -> (r: Vec<(SbomLabels, u64)>)
    ensures
        counted_views(r@) == tally(rows@.map_values(|l: SbomLabels| l@)),
{
    broadcast use vstd::seq_lib::group_to_multiset_ensures;
    broadcast use vstd::multiset::group_multiset_axioms;

    let ghost all = rows@.map_values(|l: SbomLabels| l@);
    let mut out: Vec<(SbomLabels, u64)> = Vec::new();
    let mut i: usize = 0;
    while i < rows.len()
        invariant
            0 <= i <= rows@.len(),
            all == rows@.map_values(|l: SbomLabels| l@),
            out@.map_values(|p: (SbomLabels, u64)| p.0@) == dedup_firsts(all.take(i as int)),
            counted_views(out@) == tally(all.take(i as int)),
            forall|k: int| 0 <= k < out@.len() ==> out@[k].1 <= i,
        decreases rows@.len() - i,
    {
        broadcast use vstd::seq_lib::group_to_multiset_ensures;
        broadcast use vstd::multiset::group_multiset_axioms;

        let ghost prefix = all.take(i as int);
        let ghost prefix2 = all.take(i as int + 1);
        let ghost x = all[i as int];
        let ghost keys = out@.map_values(|p: (SbomLabels, u64)| p.0@);
        proof {
            assert(prefix2.drop_last() =~= prefix);
            assert(prefix2.last() == x);
            assert(prefix2 =~= prefix.push(x));
            assert(prefix2.to_multiset() =~= prefix.to_multiset().insert(x));
            crate::distinct::lemma_dedup_firsts_no_duplicates(prefix);
            crate::distinct::lemma_dedup_firsts_members(prefix, x);
        }
        match find_sbom_key(&out, &rows[i]) {
            Some(kidx) => {
                proof {
                    assert(keys[kidx as int] == x);
                    assert(dedup_firsts(prefix).contains(x));
                    assert(dedup_firsts(prefix2) == dedup_firsts(prefix));
                }
                let ghost before = out@;
                let current = out[kidx].1;
                let key = out[kidx].0.clone();
                out.set(kidx, (key, current + 1));
                proof {
                    assert(out@.map_values(|p: (SbomLabels, u64)| p.0@) =~= keys);
                    assert forall|k: int| 0 <= k < out@.len() implies counted_views(out@)[k]
                        == tally(prefix2)[k] by {
                        assert(counted_views(before)[k] == tally(prefix)[k]);
                        assert(counted_views(before)[k] == (before[k].0@, before[k].1 as nat));
                        assert(tally(prefix)[k] == (
                            dedup_firsts(prefix)[k],
                            prefix.to_multiset().count(dedup_firsts(prefix)[k]),
                        ));
                        assert(tally(prefix2)[k] == (
                            dedup_firsts(prefix2)[k],
                            prefix2.to_multiset().count(dedup_firsts(prefix2)[k]),
                        ));
                        assert(dedup_firsts(prefix)[k] == keys[k]);
                        if k == kidx as int {
                            assert(prefix.to_multiset().count(x) == before[k].1 as nat);
                            assert(prefix2.to_multiset().count(x) == before[k].1 as nat + 1);
                            assert(counted_views(out@)[k] == (out@[k].0@, out@[k].1 as nat));
                        } else {
                            assert(out@[k] == before[k]);
                            assert(keys[k] != keys[kidx as int]);
                            assert(prefix2.to_multiset().count(keys[k])
                                == prefix.to_multiset().count(keys[k]));
                            assert(counted_views(out@)[k] == (out@[k].0@, out@[k].1 as nat));
                        }
                    }
                    assert(counted_views(out@) =~= tally(prefix2));
                }
            },
            None => {
                proof {
                    assert(!dedup_firsts(prefix).contains(x)) by {
                        if dedup_firsts(prefix).contains(x) {
                            let k = choose|k: int|
                                0 <= k < keys.len() && keys[k] == x;
                            assert(keys[k] == x);
                        }
                    }
                    assert(dedup_firsts(prefix2) == dedup_firsts(prefix).push(x));
                    assert(!prefix.contains(x));
                    assert(prefix.to_multiset().count(x) == 0);
                }
                let ghost before = out@;
                let key = rows[i].clone();
                out.push((key, 1));
                proof {
                    assert(out@.map_values(|p: (SbomLabels, u64)| p.0@) =~= keys.push(x));
                    assert forall|k: int| 0 <= k < out@.len() implies counted_views(out@)[k]
                        == tally(prefix2)[k] by {
                        assert(tally(prefix2)[k] == (
                            dedup_firsts(prefix2)[k],
                            prefix2.to_multiset().count(dedup_firsts(prefix2)[k]),
                        ));
                        assert(counted_views(out@)[k] == (out@[k].0@, out@[k].1 as nat));
                        if k < before.len() {
                            assert(out@[k] == before[k]);
                            assert(counted_views(before)[k] == tally(prefix)[k]);
                            assert(counted_views(before)[k] == (before[k].0@, before[k].1 as nat));
                            assert(tally(prefix)[k] == (
                                dedup_firsts(prefix)[k],
                                prefix.to_multiset().count(dedup_firsts(prefix)[k]),
                            ));
                            assert(dedup_firsts(prefix)[k] == keys[k]);
                            assert(dedup_firsts(prefix2)[k] == keys[k]);
                            assert(keys[k] != x);
                            assert(prefix2.to_multiset().count(keys[k])
                                == prefix.to_multiset().count(keys[k]));
                        } else {
                            assert(dedup_firsts(prefix2)[k] == x);
                            assert(prefix2.to_multiset().count(x) == 1);
                        }
                    }
                    assert(counted_views(out@) =~= tally(prefix2));
                }
            },
        }
        i = i + 1;
    }
    proof {
        assert(all.take(rows@.len() as int) =~= all);
    }
    out
}

/// The SBOM-family counters of a batch: one counter per distinct label
/// set (package name, nonempty version, source attribution), counting
/// its occurrences across all sources, in first-seen order.
pub fn sbom_counters(sboms: &Vec<(Source, Sbom)>) -> (r: Vec<(SbomLabels, u64)>)
    ensures
        counted_views(r@) == tally(sbom_label_rows(sbom_pair_views(sboms@))),
{
    let rows = build_sbom_rows(sboms);
    tally_sbom_rows(rows)
}

} // verus!

verus! {

/// The label row of one vulnerability match.
pub open spec fn scan_row(source: SourceView, e: ScanEntryView, date: Seq<char>) -> ScanLabelsView {
    ScanLabelsView {
        cve: e.vulnerability.id,
        cvss_base_score: cvss_triple(e.vulnerability.cvss).0,
        cvss_exploitability_score: cvss_triple(e.vulnerability.cvss).1,
        cvss_impact_score: cvss_triple(e.vulnerability.cvss).2,
        severity: e.vulnerability.severity,
        urls: join_comma(e.vulnerability.urls),
        software: e.artifact.name,
        fixed: fix_state_label(e.vulnerability.fix.state),
        fixed_versions: join_comma(e.vulnerability.fix.versions),
        scan_date: date,
        title: title_of(source_labels_of(source).image, e.artifact.name, e.vulnerability.id),
        source: source_labels_of(source),
    }
}

/// The vulnerability-family label rows of one source's report: one row
/// per match, in report order.
pub open spec fn scan_rows_of(
    source: SourceView,
    matches: Seq<ScanEntryView>,
    date: Seq<char>,
) -> Seq<ScanLabelsView>
    decreases matches.len(),
{
    if matches.len() == 0 {
        Seq::<ScanLabelsView>::empty()
    } else {
        scan_rows_of(source, matches.drop_last(), date).push(
            scan_row(source, matches.last(), date),
        )
    }
}

/// The scanned pairs as mathematical values.
pub open spec fn scan_pair_views(pairs: Seq<(Source, Scan)>) -> Seq<(SourceView, ScanView)> {
    pairs.map_values(|p: (Source, Scan)| (p.0@, p.1@))
}

/// All vulnerability-family label rows of a batch, source by source.
pub open spec fn scan_label_rows(
    pairs: Seq<(SourceView, ScanView)>,
    date: Seq<char>,
) -> Seq<ScanLabelsView>
    decreases pairs.len(),
{
    if pairs.len() == 0 {
        Seq::<ScanLabelsView>::empty()
    } else {
        scan_label_rows(pairs.drop_last(), date) + scan_rows_of(
            pairs.last().0,
            pairs.last().1.matches,
            date,
        )
    }
}

/// Builds every vulnerability-family label row of the batch, in order.
fn build_scan_rows(scans: &Vec<(Source, Scan)>, scan_date: &String) -> (rows: Vec<ScanLabels>)
    ensures
        rows@.map_values(|l: ScanLabels| l@) == scan_label_rows(
            scan_pair_views(scans@),
            scan_date@,
        ),
{
    let ghost all = scan_pair_views(scans@);
    let ghost date = scan_date@;
    let mut rows: Vec<ScanLabels> = Vec::new();
    let mut i: usize = 0;
    while i < scans.len()
        invariant
            0 <= i <= scans@.len(),
            all == scan_pair_views(scans@),
            date == scan_date@,
            rows@.map_values(|l: ScanLabels| l@) == scan_label_rows(all.take(i as int), date),
        decreases scans@.len() - i,
    {
        let src_labels = SourceLabels::of_source(&scans[i].0);
        let matches = &scans[i].1.matches;
        let ghost entries = all[i as int].1.matches;
        let ghost outer = scan_label_rows(all.take(i as int), date);
        proof {
            assert(all.take(i as int + 1).drop_last() =~= all.take(i as int));
            assert(all.take(i as int + 1).last() == all[i as int]);
            assert(entries == matches@.map_values(|e: crate::scan::ScanEntry| e@));
        }
        let mut j: usize = 0;
        while j < matches.len()
            invariant
                0 <= j <= matches@.len(),
                entries == matches@.map_values(|e: crate::scan::ScanEntry| e@),
                src_labels@ == source_labels_of(all[i as int].0),
                0 <= i < all.len(),
                date == scan_date@,
                outer == scan_label_rows(all.take(i as int), date),
                rows@.map_values(|l: ScanLabels| l@) == outer + scan_rows_of(
                    all[i as int].0,
                    entries.take(j as int),
                    date,
                ),
            decreases matches@.len() - j,
        {
            proof {
                assert(entries.take(j as int + 1).drop_last() =~= entries.take(j as int));
                assert(entries.take(j as int + 1).last() == entries[j as int]);
            }
            let entry = &matches[j];
            let triple = cvss_label_triple(&entry.vulnerability.cvss);
            let title = make_title(&src_labels.image, &entry.artifact.name, &entry.vulnerability.id);
            let ghost before = rows@.map_values(|l: ScanLabels| l@);
            rows.push(
                ScanLabels {
                    cve: entry.vulnerability.id.clone(),
                    cvss_base_score: triple.0,
                    cvss_exploitability_score: triple.1,
                    cvss_impact_score: triple.2,
                    severity: entry.vulnerability.severity.clone(),
                    urls: join_with_comma(&entry.vulnerability.urls),
                    software: entry.artifact.name.clone(),
                    fixed: entry.vulnerability.fix.state.to_label(),
                    fixed_versions: join_with_comma(&entry.vulnerability.fix.versions),
                    scan_date: scan_date.clone(),
                    title,
                    source: src_labels.clone(),
                },
            );
            proof {
                assert(rows@.map_values(|l: ScanLabels| l@) =~= before.push(
                    scan_row(all[i as int].0, entries[j as int], date),
                ));
            }
            j = j + 1;
        }
        proof {
            assert(entries.take(matches@.len() as int) =~= entries);
        }
        i = i + 1;
    }
    proof {
        assert(all.take(scans@.len() as int) =~= all);
    }
    rows
}

} // verus!

verus! {

/// Index of the counter whose labels equal `x`, or none.
fn find_scan_key(out: &Vec<(ScanLabels, u64)>, x: &ScanLabels) -> (r: Option<usize>)
    ensures
        match r {
            Some(k) => (k as int) < out@.len() && out@[k as int].0@ == x@,
            None => forall|k: int| 0 <= k < out@.len() ==> out@[k].0@ != x@,
        },
{
    let mut k: usize = 0;
    while k < out.len()
        invariant
            0 <= k <= out@.len(),
            forall|j: int| 0 <= j < k ==> out@[j].0@ != x@,
        decreases out@.len() - k,
    {
        if out[k].0 == *x {
            return Some(k);
        }
        k = k + 1;
    }
    None
}

/// Counts how often each distinct label set occurs among `rows`: one
/// counter per distinct label set, in first-seen order, whose count is
/// the label set's number of occurrences.
fn tally_scan_rows(rows: Vec<ScanLabels>) -> (r: Vec<(ScanLabels, u64)>)
    ensures
        counted_views(r@) == tally(rows@.map_values(|l: ScanLabels| l@)),
{
    broadcast use vstd::seq_lib::group_to_multiset_ensures;
    broadcast use vstd::multiset::group_multiset_axioms;

    let ghost all = rows@.map_values(|l: ScanLabels| l@);
    let mut out: Vec<(ScanLabels, u64)> = Vec::new();
    let mut i: usize = 0;
    while i < rows.len()
        invariant
            0 <= i <= rows@.len(),
            all == rows@.map_values(|l: ScanLabels| l@),
            out@.map_values(|p: (ScanLabels, u64)| p.0@) == dedup_firsts(all.take(i as int)),
            counted_views(out@) == tally(all.take(i as int)),
            forall|k: int| 0 <= k < out@.len() ==> out@[k].1 <= i,
        decreases rows@.len() - i,
    {
        broadcast use vstd::seq_lib::group_to_multiset_ensures;
        broadcast use vstd::multiset::group_multiset_axioms;

        let ghost prefix = all.take(i as int);
        let ghost prefix2 = all.take(i as int + 1);
        let ghost x = all[i as int];
        let ghost keys = out@.map_values(|p: (ScanLabels, u64)| p.0@);
        proof {
            assert(prefix2.drop_last() =~= prefix);
            assert(prefix2.last() == x);
            assert(prefix2 =~= prefix.push(x));
            assert(prefix2.to_multiset() =~= prefix.to_multiset().insert(x));
            crate::distinct::lemma_dedup_firsts_no_duplicates(prefix);
            crate::distinct::lemma_dedup_firsts_members(prefix, x);
        }
        match find_scan_key(&out, &rows[i]) {
            Some(kidx) => {
                proof {
                    assert(keys[kidx as int] == x);
                    assert(dedup_firsts(prefix).contains(x));
                    assert(dedup_firsts(prefix2) == dedup_firsts(prefix));
                }
                let ghost before = out@;
                let current = out[kidx].1;
                let key = out[kidx].0.clone();
                out.set(kidx, (key, current + 1));
                proof {
                    assert(out@.map_values(|p: (ScanLabels, u64)| p.0@) =~= keys);
                    assert forall|k: int| 0 <= k < out@.len() implies counted_views(out@)[k]
                        == tally(prefix2)[k] by {
                        assert(counted_views(before)[k] == tally(prefix)[k]);
                        assert(counted_views(before)[k] == (before[k].0@, before[k].1 as nat));
                        assert(tally(prefix)[k] == (
                            dedup_firsts(prefix)[k],
                            prefix.to_multiset().count(dedup_firsts(prefix)[k]),
                        ));
                        assert(tally(prefix2)[k] == (
                            dedup_firsts(prefix2)[k],
                            prefix2.to_multiset().count(dedup_firsts(prefix2)[k]),
                        ));
                        assert(dedup_firsts(prefix)[k] == keys[k]);
                        if k == kidx as int {
                            assert(prefix.to_multiset().count(x) == before[k].1 as nat);
                            assert(prefix2.to_multiset().count(x) == before[k].1 as nat + 1);
                            assert(counted_views(out@)[k] == (out@[k].0@, out@[k].1 as nat));
                        } else {
                            assert(out@[k] == before[k]);
                            assert(keys[k] != keys[kidx as int]);
                            assert(prefix2.to_multiset().count(keys[k])
                                == prefix.to_multiset().count(keys[k]));
                            assert(counted_views(out@)[k] == (out@[k].0@, out@[k].1 as nat));
                        }
                    }
                    assert(counted_views(out@) =~= tally(prefix2));
                }
            },
            None => {
                proof {
                    assert(!dedup_firsts(prefix).contains(x)) by {
                        if dedup_firsts(prefix).contains(x) {
                            let k = choose|k: int| 0 <= k < keys.len() && keys[k] == x;
                            assert(keys[k] == x);
                        }
                    }
                    assert(dedup_firsts(prefix2) == dedup_firsts(prefix).push(x));
                    assert(!prefix.contains(x));
                    assert(prefix.to_multiset().count(x) == 0);
                }
                let ghost before = out@;
                let key = rows[i].clone();
                out.push((key, 1));
                proof {
                    assert(out@.map_values(|p: (ScanLabels, u64)| p.0@) =~= keys.push(x));
                    assert forall|k: int| 0 <= k < out@.len() implies counted_views(out@)[k]
                        == tally(prefix2)[k] by {
                        assert(tally(prefix2)[k] == (
                            dedup_firsts(prefix2)[k],
                            prefix2.to_multiset().count(dedup_firsts(prefix2)[k]),
                        ));
                        assert(counted_views(out@)[k] == (out@[k].0@, out@[k].1 as nat));
                        if k < before.len() {
                            assert(out@[k] == before[k]);
                            assert(counted_views(before)[k] == tally(prefix)[k]);
                            assert(counted_views(before)[k] == (before[k].0@, before[k].1 as nat));
                            assert(tally(prefix)[k] == (
                                dedup_firsts(prefix)[k],
                                prefix.to_multiset().count(dedup_firsts(prefix)[k]),
                            ));
                            assert(dedup_firsts(prefix)[k] == keys[k]);
                            assert(dedup_firsts(prefix2)[k] == keys[k]);
                            assert(keys[k] != x);
                            assert(prefix2.to_multiset().count(keys[k])
                                == prefix.to_multiset().count(keys[k]));
                        } else {
                            assert(dedup_firsts(prefix2)[k] == x);
                            assert(prefix2.to_multiset().count(x) == 1);
                        }
                    }
                    assert(counted_views(out@) =~= tally(prefix2));
                }
            },
        }
        i = i + 1;
    }
    proof {
        assert(all.take(rows@.len() as int) =~= all);
    }
    out
}

/// The vulnerability-family counters of a batch: one counter per
/// distinct label set, counting its occurrences, in first-seen order.
/// `scan_date` is the calendar date the labels carry.
pub fn scan_counters(scans: &Vec<(Source, Scan)>, scan_date: &String) -> (r: Vec<(
    ScanLabels,
    u64,
)>)
    ensures
        counted_views(r@) == tally(scan_label_rows(scan_pair_views(scans@), scan_date@)),
{
    let rows = build_scan_rows(scans, scan_date);
    tally_scan_rows(rows)
}

/// Relies on chrono's `Utc::now` and `NaiveDate`'s rendering: the
/// current UTC calendar date as a string. The value depends on the
/// clock, so nothing is promised of it.
#[verifier::external_body]
fn utc_date_string() -> (r: String) {
    chrono::Utc::now().date_naive().to_string()
}

/// Everything one run writes out: the metrics path and the two counter
/// families, ready to be encoded into the text exposition format and
/// written as a whole.
#[derive(Debug)]
pub struct MetricsExport {
    pub path: String,
    pub sbom_counters: Vec<(SbomLabels, u64)>,
    pub scan_counters: Vec<(ScanLabels, u64)>,
}

/// Aggregates a run's metrics: the SBOM-family counters of the resolved
/// documents, the vulnerability-family counters of the reports under the
/// current UTC date, and the path the encoded file belongs at. Encoding
/// and writing happen once, after this, so a run that lost sources along
/// the way still yields a complete file for the sources that survived.
pub fn export_metrics(
    config: &Config,
    sboms: &Vec<(Source, Sbom)>,
    scans: &Vec<(Source, Scan)>,
) -> (r: MetricsExport)
    ensures
        (match config@.metrics_path {
            Some(p) => r.path@ == p,
            None => r.path@ == default_metrics_path(config@.base_path),
        }),
        counted_views(r.sbom_counters@) == tally(sbom_label_rows(sbom_pair_views(sboms@))),
        exists|date: Seq<char>|
            counted_views(r.scan_counters@) == tally(
                #[trigger] scan_label_rows(scan_pair_views(scans@), date),
            ),
{
    let date = utc_date_string();
    let path = config.metrics_path();
    let sbom_counters = sbom_counters(sboms);
    let scan_counters = scan_counters(scans, &date);
    proof {
        assert(counted_views(scan_counters@) == tally(
            scan_label_rows(scan_pair_views(scans@), date@),
        ));
    }
    MetricsExport { path, sbom_counters, scan_counters }
}

} // verus!

verus! {

/// CVSS fallback: the label row of a match whose vulnerability carries
/// no scoring record holds exactly the string `undefined` for all three
/// score labels, and the first record's scores otherwise.
pub proof fn lemma_cvss_fallback(source: SourceView, e: ScanEntryView, date: Seq<char>)
    ensures
        e.vulnerability.cvss.len() == 0 ==> {
            &&& scan_row(source, e, date).cvss_base_score == "undefined"@
            &&& scan_row(source, e, date).cvss_exploitability_score == "undefined"@
            &&& scan_row(source, e, date).cvss_impact_score == "undefined"@
        },
        e.vulnerability.cvss.len() > 0 ==> {
            &&& scan_row(source, e, date).cvss_base_score
                == e.vulnerability.cvss[0].metrics.base_score
            &&& scan_row(source, e, date).cvss_exploitability_score
                == e.vulnerability.cvss[0].metrics.exploitability_score
            &&& scan_row(source, e, date).cvss_impact_score
                == e.vulnerability.cvss[0].metrics.impact_score
        },
{
}

} // verus!
