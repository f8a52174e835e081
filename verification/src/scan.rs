//! Vulnerability reports and the scanning stage's policy.
//!
//! A report is a sequence of matches, each pairing a vulnerability with
//! the artifact it was found in. The scanner itself is a subprocess the
//! caller runs once per SBOM; before any of those run, the shared
//! vulnerability database is refreshed exactly once, and a refresh
//! failure is fatal for the whole batch, since scanning against a stale
//! or half-updated database silently produces wrong results. Individual
//! scan failures only drop their own source.

use vstd::prelude::*;
use vstd::string::*;
use crate::config::Source;
use crate::pipeline::ok_pairs;

verus! {

/// CVSS scores of one scoring record, already rendered as the decimal
/// strings the metrics report.
#[derive(Debug)]
pub struct CvssMetrics {
    pub base_score: String,
    pub exploitability_score: String,
    pub impact_score: String,
}

/// Mathematical value of a `CvssMetrics`.
pub struct CvssMetricsView {
    pub base_score: Seq<char>,
    pub exploitability_score: Seq<char>,
    pub impact_score: Seq<char>,
}

impl View for CvssMetrics {
    type V = CvssMetricsView;

    open spec fn view(&self) -> CvssMetricsView {
        CvssMetricsView {
            base_score: self.base_score@,
            exploitability_score: self.exploitability_score@,
            impact_score: self.impact_score@,
        }
    }
}

/// One CVSS scoring record of a vulnerability.
#[derive(Debug)]
pub struct Cvss {
    pub source: String,
    pub cvss_type: String,
    pub version: String,
    pub vector: String,
    pub metrics: CvssMetrics,
}

/// Mathematical value of a `Cvss`.
pub struct CvssView {
    pub source: Seq<char>,
    pub cvss_type: Seq<char>,
    pub version: Seq<char>,
    pub vector: Seq<char>,
    pub metrics: CvssMetricsView,
}

impl View for Cvss {
    type V = CvssView;

    open spec fn view(&self) -> CvssView {
        CvssView {
            source: self.source@,
            cvss_type: self.cvss_type@,
            version: self.version@,
            vector: self.vector@,
            metrics: self.metrics@,
        }
    }
}

/// Whether and how a vulnerability is fixed.
#[derive(Debug, PartialEq, Eq, Structural, Clone, Copy)]
pub enum FixState {
    Unknown,
    Fixed,
    NotFixed,
    WontFix,
}

/// The label value of a fix state, as the vulnerability family reports
/// it.
pub open spec fn fix_state_label(s: FixState) -> Seq<char> {
    match s {
        FixState::Unknown => "Unknown"@,
        FixState::Fixed => "Fixed"@,
        FixState::NotFixed => "NotFixed"@,
        FixState::WontFix => "WontFix"@,
    }
}

impl FixState {
    /// Renders the state for the `fixed` label.
    pub fn to_label(&self) -> (r: String)
        ensures
            r@ == fix_state_label(*self),
    {
        match self {
            FixState::Unknown => "Unknown".to_owned(),
            FixState::Fixed => "Fixed".to_owned(),
            FixState::NotFixed => "NotFixed".to_owned(),
            FixState::WontFix => "WontFix".to_owned(),
        }
    }
}

/// Fix status of a vulnerability: the state and the versions that fix
/// it.
#[derive(Debug)]
pub struct Fix {
    pub versions: Vec<String>,
    pub state: FixState,
}

/// Mathematical value of a `Fix`.
pub struct FixView {
    pub versions: Seq<Seq<char>>,
    pub state: FixState,
}

impl View for Fix {
    type V = FixView;

    open spec fn view(&self) -> FixView {
        FixView { versions: self.versions.deep_view(), state: self.state }
    }
}

/// One known vulnerability, as the scanner reports it.
#[derive(Debug)]
pub struct Vulnerability {
    pub id: String,
    pub severity: String,
    pub urls: Vec<String>,
    pub fix: Fix,
    pub cvss: Vec<Cvss>,
}

/// Mathematical value of a `Vulnerability`.
pub struct VulnerabilityView {
    pub id: Seq<char>,
    pub severity: Seq<char>,
    pub urls: Seq<Seq<char>>,
    pub fix: FixView,
    pub cvss: Seq<CvssView>,
}

impl View for Vulnerability {
    type V = VulnerabilityView;

    open spec fn view(&self) -> VulnerabilityView {
        VulnerabilityView {
            id: self.id@,
            severity: self.severity@,
            urls: self.urls.deep_view(),
            fix: self.fix@,
            cvss: self.cvss@.map_values(|c: Cvss| c@),
        }
    }
}

/// The artifact a vulnerability was found in.
#[derive(Debug)]
pub struct ScanArtifact {
    pub name: String,
}

/// Mathematical value of a `ScanArtifact`.
pub struct ScanArtifactView {
    pub name: Seq<char>,
}

impl View for ScanArtifact {
    type V = ScanArtifactView;

    open spec fn view(&self) -> ScanArtifactView {
        ScanArtifactView { name: self.name@ }
    }
}

/// One match of a report: a vulnerability and the artifact it concerns.
#[derive(Debug)]
pub struct ScanEntry {
    pub vulnerability: Vulnerability,
    pub artifact: ScanArtifact,
}

/// Mathematical value of a `ScanEntry`.
pub struct ScanEntryView {
    pub vulnerability: VulnerabilityView,
    pub artifact: ScanArtifactView,
}

impl View for ScanEntry {
    type V = ScanEntryView;

    open spec fn view(&self) -> ScanEntryView {
        ScanEntryView { vulnerability: self.vulnerability@, artifact: self.artifact@ }
    }
}

/// A vulnerability report: the scanner's matches for one SBOM.
#[derive(Debug)]
pub struct Scan {
    pub matches: Vec<ScanEntry>,
}

/// Mathematical value of a `Scan`.
pub struct ScanView {
    pub matches: Seq<ScanEntryView>,
}

impl View for Scan {
    type V = ScanView;

    open spec fn view(&self) -> ScanView {
        ScanView { matches: self.matches@.map_values(|e: ScanEntry| e@) }
    }
}

/// Why the scanning stage failed as a whole.
#[derive(Debug, PartialEq, Eq, Structural, Clone, Copy)]
pub enum ScanError {
    /// The shared vulnerability database could not be refreshed; no scan
    /// may run against it.
    DbRefreshFailed,
}

/// The arguments of the one database refresh that precedes the batch.
pub open spec fn db_update_args() -> Seq<Seq<char>> {
    seq!["db"@, "update"@, "--quiet"@]
}

/// Builds the database-refresh invocation.
pub fn db_update_args_for() -> (r: Vec<String>)
    ensures
        r.deep_view() == db_update_args(),
{
    let mut args: Vec<String> = Vec::new();
    args.push("db".to_owned());
    args.push("update".to_owned());
    args.push("--quiet".to_owned());
    proof {
        assert(args.deep_view() =~= db_update_args());
    }
    args
}

/// The arguments of one scanner run: quiet, structured JSON output. The
/// scanner's own database refresh stays off; the batch refreshed it
/// already.
pub open spec fn scanner_args() -> Seq<Seq<char>> {
    seq!["--quiet"@, "-o"@, "json"@]
}

/// Builds one scanner invocation.
pub fn scanner_args_for() -> (r: Vec<String>)
    ensures
        r.deep_view() == scanner_args(),
{
    let mut args: Vec<String> = Vec::new();
    args.push("--quiet".to_owned());
    args.push("-o".to_owned());
    args.push("json".to_owned());
    proof {
        assert(args.deep_view() =~= scanner_args());
    }
    args
}

/// Settles the scanning stage: a failed database refresh is fatal for
/// the whole batch, and otherwise exactly the sources whose own scan
/// succeeded stand in the result, the failed ones dropped.
pub fn scan_batch_decision<E>(
    db_refresh_ok: bool,
    results: Vec<(Source, Result<Scan, E>)>,
) -> (r: Result<Vec<(Source, Scan)>, ScanError>)
    ensures
        db_refresh_ok ==> (r matches Ok(m) && m@ == ok_pairs(results@)),
        !db_refresh_ok ==> (r matches Err(e) && e == ScanError::DbRefreshFailed),
{
    if db_refresh_ok {
        Ok(crate::pipeline::collect_successes(results))
    } else {
        Err(ScanError::DbRefreshFailed)
    }
}

} // verus!
