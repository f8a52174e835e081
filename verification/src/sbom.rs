//! SBOM documents and the per-source resolution decisions.
//!
//! Resolving one source to an SBOM document runs in steps that alternate
//! with outside work: derive the plan for the source, let the caller
//! check the cache, decide what the cache check means, and, on a miss,
//! either hand the caller the exact generator invocation or select the
//! right embedded attestation from what an image-inspection call
//! returned. Every decision is made here; the caller only performs the
//! file reads and subprocess runs the plan names.
//!
//! Policy for a cached document that is present but unreadable: it is
//! treated as a cache miss, so the document is regenerated (or looked up
//! in the attestations) rather than failing the source.

use vstd::prelude::*;
use vstd::string::*;
use crate::config::{Config, ConfigView, Source, SourceView, sbom_cache_path};

verus! {

/// One package read out of an SBOM document. The field names follow the
/// document format.
#[allow(non_snake_case)]
#[derive(Debug)]
pub struct SbomEntry {
    pub name: String,
    pub versionInfo: String,
}

/// Mathematical value of an `SbomEntry`.
pub struct SbomEntryView {
    pub name: Seq<char>,
    pub version_info: Seq<char>,
}

impl View for SbomEntry {
    type V = SbomEntryView;

    open spec fn view(&self) -> SbomEntryView {
        SbomEntryView { name: self.name@, version_info: self.versionInfo@ }
    }
}

/// The part of an SBOM document the metrics read: its package list.
#[derive(Debug)]
pub struct Sbom {
    pub packages: Vec<SbomEntry>,
}

/// Mathematical value of an `Sbom`.
pub struct SbomView {
    pub packages: Seq<SbomEntryView>,
}

impl View for Sbom {
    type V = SbomView;

    open spec fn view(&self) -> SbomView {
        SbomView { packages: self.packages@.map_values(|e: SbomEntry| e@) }
    }
}

/// Why one source yields no SBOM. Any of these is recoverable: the
/// source is dropped from the batch and the run continues.
#[derive(Debug, PartialEq, Eq, Structural, Clone, Copy)]
pub enum ResolveError {
    /// The image carries no SBOM attestation compatible with this host.
    NoCompatibleAttestation,
    /// The generator subprocess failed or its output was unreadable.
    GeneratorFailed,
}

/// What to do for a source whose cache holds no usable document.
#[derive(Debug)]
pub enum MissAction {
    /// Run the generator subprocess with exactly these arguments and, if
    /// a cache path is set, persist the raw output there before parsing.
    Generate { args: Vec<String>, cache_path: Option<String> },
    /// Read the image's SBOM attestation and select the entry for this
    /// platform.
    ReadAttestation { image: String, platform: String },
    /// Passive mode never generates for a host directory: the source is
    /// skipped.
    Skip,
}

/// Mathematical value of a `MissAction`.
pub enum MissActionView {
    Generate { args: Seq<Seq<char>>, cache_path: Option<Seq<char>> },
    ReadAttestation { image: Seq<char>, platform: Seq<char> },
    Skip,
}

impl View for MissAction {
    type V = MissActionView;

    open spec fn view(&self) -> MissActionView {
        match self {
            MissAction::Generate { args, cache_path } => MissActionView::Generate {
                args: args.deep_view(),
                cache_path: match cache_path {
                    Some(p) => Some(p@),
                    None => None,
                },
            },
            MissAction::ReadAttestation { image, platform } => MissActionView::ReadAttestation {
                image: image@,
                platform: platform@,
            },
            MissAction::Skip => MissActionView::Skip,
        }
    }
}

/// How one source is resolved: where its cache would be, and what to do
/// when the cache yields nothing.
#[derive(Debug)]
pub struct ResolvePlan {
    pub cache_path: Option<String>,
    pub on_miss: MissAction,
}

/// Mathematical value of a `ResolvePlan`.
pub struct ResolvePlanView {
    pub cache_path: Option<Seq<char>>,
    pub on_miss: MissActionView,
}

impl View for ResolvePlan {
    type V = ResolvePlanView;

    open spec fn view(&self) -> ResolvePlanView {
        ResolvePlanView {
            cache_path: match &self.cache_path {
                Some(p) => Some(p@),
                None => None,
            },
            on_miss: self.on_miss@,
        }
    }
}

/// The platform label under which an image attestation is filed, for a
/// host instruction-set architecture. Architectures this mapping does
/// not know fall back to the empty, unqualified label.
pub open spec fn platform_of_arch(arch: Seq<char>) -> Seq<char> {
    if arch == "x86_64"@ {
        "linux/amd64"@
    } else if arch == "aarch64"@ {
        "linux/arm64"@
    } else {
        ""@
    }
}

/// Whether two strings hold the same characters.
pub fn str_eq(a: &str, b: &str) -> (r: bool)
    ensures
        r == (a@ == b@),
{
    let s1: String = a.to_owned();
    let s2: String = b.to_owned();
    s1 == s2
}

/// The platform label for a host architecture.
pub fn arch_platform(arch: &str) -> (r: String)
    ensures
        r@ == platform_of_arch(arch@),
{
    if str_eq(arch, "x86_64") {
        "linux/amd64".to_owned()
    } else if str_eq(arch, "aarch64") {
        "linux/arm64".to_owned()
    } else {
        "".to_owned()
    }
}

/// The fixed leading arguments of every generator invocation: quiet,
/// structured JSON output, all catalogers.
pub open spec fn base_generator_args() -> Seq<Seq<char>> {
    seq![
        "scan"@,
        "--quiet"@,
        "-o"@,
        "spdx-json"@,
        "--override-default-catalogers"@,
        "all"@,
    ]
}

/// The exclusion arguments of a directory scan: each configured pattern,
/// made relative to the scan root, behind its own `--exclude`.
pub open spec fn exclude_args(excludes: Seq<Seq<char>>) -> Seq<Seq<char>>
    decreases excludes.len(),
{
    if excludes.len() == 0 {
        Seq::<Seq<char>>::empty()
    } else {
        exclude_args(excludes.drop_last()) + seq!["--exclude"@, "."@ + excludes.last()]
    }
}

/// The full argument list of the generator subprocess for one source:
/// the fixed arguments, then (for a directory) the exclusions, then the
/// scan target itself.
pub open spec fn generator_args(source: SourceView, excludes: Seq<Seq<char>>) -> Seq<Seq<char>> {
    match source {
        SourceView::DockerImage { name, id } => base_generator_args().push(name),
        SourceView::HostDirectory { path } => base_generator_args() + exclude_args(excludes)
            + seq![path],
    }
}

/// Builds the generator invocation for one source.
pub fn generator_args_for(source: &Source, excludes: &Vec<String>) -> (r: Vec<String>)
    ensures
        r.deep_view() == generator_args(source@, excludes.deep_view()),
{
    let mut args: Vec<String> = Vec::new();
    args.push("scan".to_owned());
    args.push("--quiet".to_owned());
    args.push("-o".to_owned());
    args.push("spdx-json".to_owned());
    args.push("--override-default-catalogers".to_owned());
    args.push("all".to_owned());
    proof {
        assert(args.deep_view() =~= base_generator_args());
    }
    match source {
        Source::DockerImage { name, id: _ } => {
            let ghost before = args.deep_view();
            args.push(name.clone());
            proof {
                assert(args.deep_view() =~= before.push(name@));
            }
        },
        Source::HostDirectory { path } => {
            let ghost all = excludes.deep_view();
            let mut i: usize = 0;
            while i < excludes.len()
                invariant
                    0 <= i <= excludes@.len(),
                    all == excludes.deep_view(),
                    args.deep_view() == base_generator_args() + exclude_args(
                        all.take(i as int),
                    ),
                decreases excludes@.len() - i,
            {
                let ghost before = args.deep_view();
                args.push("--exclude".to_owned());
                let mut rel = String::from_str(".");
                rel.append(excludes[i].as_str());
                args.push(rel);
                proof {
                    assert(all.take(i as int + 1).drop_last() =~= all.take(i as int));
                    assert(args.deep_view() =~= before + seq!["--exclude"@, "."@ + all[i as int]]);
                    assert(args.deep_view() =~= base_generator_args() + exclude_args(
                        all.take(i as int + 1),
                    ));
                }
                i = i + 1;
            }
            let ghost before = args.deep_view();
            args.push(path.clone());
            proof {
                assert(all.take(all.len() as int) =~= all);
                assert(args.deep_view() =~= before + seq![path@]);
            }
        },
    }
    args
}

/// The resolution plan of one source: its cache path (a deterministic
/// function of the image id; a host directory is never cached), and what
/// a cache miss leads to. In active mode a miss runs the generator; in
/// passive mode an image's attestations are consulted instead, and a
/// host directory is skipped.
pub open spec fn resolution_plan(
    config: ConfigView,
    source: SourceView,
    arch: Seq<char>,
) -> ResolvePlanView {
    let cache_path = match source {
        SourceView::DockerImage { name, id } => Some(sbom_cache_path(config.base_path, id)),
        SourceView::HostDirectory { .. } => None,
    };
    ResolvePlanView {
        cache_path,
        on_miss: if config.generate_sboms {
            MissActionView::Generate {
                args: generator_args(source, config.excludes),
                cache_path,
            }
        } else {
            match source {
                SourceView::DockerImage { name, id } => MissActionView::ReadAttestation {
                    image: name,
                    platform: platform_of_arch(arch),
                },
                SourceView::HostDirectory { .. } => MissActionView::Skip,
            }
        },
    }
}

/// Derives the resolution plan for one source. `arch` is the host's
/// instruction-set architecture.
pub fn plan_resolution(config: &Config, source: &Source, arch: &str) -> (r: ResolvePlan)
    ensures
        r@ == resolution_plan(config@, source@, arch@),
{
    let cache_path = config.sbom_path(source);
    let on_miss = if config.generate_sboms {
        let second_path = config.sbom_path(source);
        MissAction::Generate {
            args: generator_args_for(source, &config.excludes),
            cache_path: second_path,
        }
    } else {
        match source {
            Source::DockerImage { name, id: _ } => MissAction::ReadAttestation {
                image: name.clone(),
                platform: arch_platform(arch),
            },
            Source::HostDirectory { .. } => MissAction::Skip,
        }
    };
    ResolvePlan { cache_path, on_miss }
}

/// What the caller found at a source's cache path.
#[derive(Debug)]
pub enum CacheCheck {
    /// The file was present and parsed into a document.
    Hit { document: String },
    /// The file was present but did not parse.
    Unreadable,
    /// No file, or the source has no cache path.
    Absent,
}

/// What a cache check means for the resolution.
#[derive(Debug)]
pub enum CacheDecision {
    /// A cache hit: this document, exactly as cached, is the result; no
    /// subprocess is spawned for this source.
    UseDocument { document: String },
    /// A miss: carry out the plan's miss action.
    RunMiss,
}

/// Decides what a cache check means. A hit returns the cached document
/// unchanged; an absent file is a miss; an unreadable file is treated as
/// a miss, so the document is regenerated rather than failing the
/// source.
pub fn after_cache_check(check: CacheCheck) -> (r: CacheDecision)
    ensures
        (check matches CacheCheck::Hit { document } ==> (r matches CacheDecision::UseDocument {
            document: d,
        } && d == document)),
        !(check matches CacheCheck::Hit { .. }) ==> (r matches CacheDecision::RunMiss),
{
    match check {
        CacheCheck::Hit { document } => CacheDecision::UseDocument { document },
        CacheCheck::Unreadable => CacheDecision::RunMiss,
        CacheCheck::Absent => CacheDecision::RunMiss,
    }
}

/// One platform's entry in an image's attestation document: the platform
/// label it is filed under and the embedded SBOM document, if the entry
/// carries one.
#[derive(Debug)]
pub struct AttestationEntry {
    pub platform: String,
    pub spdx: Option<String>,
}

/// Mathematical value of an `AttestationEntry`.
pub struct AttestationEntryView {
    pub platform: Seq<char>,
    pub spdx: Option<Seq<char>>,
}

impl View for AttestationEntry {
    type V = AttestationEntryView;

    open spec fn view(&self) -> AttestationEntryView {
        AttestationEntryView {
            platform: self.platform@,
            spdx: match &self.spdx {
                Some(d) => Some(d@),
                None => None,
            },
        }
    }
}

/// What an image-inspection call returned: the per-platform entries in
/// order, and the unqualified embedded document, if any, for lookups
/// that name no platform.
#[derive(Debug)]
pub struct AttestationDoc {
    pub entries: Vec<AttestationEntry>,
    pub top_level_spdx: Option<String>,
}

/// Mathematical value of an `AttestationDoc`.
pub struct AttestationDocView {
    pub entries: Seq<AttestationEntryView>,
    pub top_level_spdx: Option<Seq<char>>,
}

impl View for AttestationDoc {
    type V = AttestationDocView;

    open spec fn view(&self) -> AttestationDocView {
        AttestationDocView {
            entries: self.entries@.map_values(|e: AttestationEntry| e@),
            top_level_spdx: match &self.top_level_spdx {
                Some(d) => Some(d@),
                None => None,
            },
        }
    }
}

/// Index of the first entry filed under `platform`, or -1 when none is.
pub open spec fn first_platform_index(
    entries: Seq<AttestationEntryView>,
    platform: Seq<char>,
) -> int
    decreases entries.len(),
{
    if entries.len() == 0 {
        -1
    } else if entries.first().platform == platform {
        0
    } else {
        let rest = first_platform_index(entries.drop_first(), platform);
        if rest == -1 {
            -1
        } else {
            rest + 1
        }
    }
}

pub proof fn lemma_first_platform_index(entries: Seq<AttestationEntryView>, platform: Seq<char>)
    ensures
        first_platform_index(entries, platform) >= -1,
        first_platform_index(entries, platform) == -1 ==> forall|j: int|
            0 <= j < entries.len() ==> entries[j].platform != platform,
        first_platform_index(entries, platform) >= 0 ==> first_platform_index(entries, platform)
            < entries.len(),
        first_platform_index(entries, platform) >= 0 ==> entries[first_platform_index(
            entries,
            platform,
        )].platform == platform,
        forall|j: int|
            0 <= j < first_platform_index(entries, platform) ==> entries[j].platform != platform,
    decreases entries.len(),
{
    if entries.len() == 0 {
    } else if entries.first().platform == platform {
    } else {
        lemma_first_platform_index(entries.drop_first(), platform);
        let rest = first_platform_index(entries.drop_first(), platform);
        if rest == -1 {
            assert forall|j: int| 0 <= j < entries.len() implies entries[j].platform
                != platform by {
                if j == 0 {
                    assert(entries[0] == entries.first());
                } else {
                    assert(entries.drop_first()[j - 1] == entries[j]);
                }
            }
        } else {
            assert(entries[rest + 1] == entries.drop_first()[rest]);
            assert forall|j: int| 0 <= j < rest + 1 implies entries[j].platform != platform by {
                if j == 0 {
                    assert(entries[0] == entries.first());
                } else {
                    assert(entries.drop_first()[j - 1] == entries[j]);
                }
            }
        }
    }
}

/// Which embedded document a platform's lookup yields: the document of
/// the first entry filed under the platform; when no entry is, the
/// unqualified document. If the place looked at holds no document, the
/// image has no compatible SBOM attestation.
pub open spec fn attestation_selection(doc: AttestationDocView, platform: Seq<char>) -> Result<
    Seq<char>,
    ResolveError,
> {
    let i = first_platform_index(doc.entries, platform);
    if i >= 0 {
        match doc.entries[i].spdx {
            Some(d) => Ok(d),
            None => Err(ResolveError::NoCompatibleAttestation),
        }
    } else {
        match doc.top_level_spdx {
            Some(d) => Ok(d),
            None => Err(ResolveError::NoCompatibleAttestation),
        }
    }
}

/// Selects the embedded SBOM document for this platform out of an
/// attestation document, or reports that the image has no compatible
/// attestation. A failure here concerns this source only.
pub fn select_attestation(doc: &AttestationDoc, platform: &str) -> (r: Result<
    String,
    ResolveError,
>)
    ensures
        match attestation_selection(doc@, platform@) {
            Ok(d) => r matches Ok(s) && s@ == d,
            Err(e) => r matches Err(e2) && e2 == e,
        },
{
    proof {
        lemma_first_platform_index(doc@.entries, platform@);
    }
    let ghost spec_index = first_platform_index(doc@.entries, platform@);
    let mut i: usize = 0;
    while i < doc.entries.len()
        invariant
            0 <= i <= doc.entries@.len(),
            spec_index == first_platform_index(doc@.entries, platform@),
            spec_index >= -1,
            first_platform_index(doc@.entries, platform@) == -1 ==> forall|j: int|
                0 <= j < doc@.entries.len() ==> doc@.entries[j].platform != platform@,
            spec_index >= 0 ==> spec_index < doc@.entries.len(),
            spec_index >= 0 ==> doc@.entries[spec_index].platform == platform@,
            forall|j: int| 0 <= j < spec_index ==> doc@.entries[j].platform != platform@,
            forall|j: int| 0 <= j < i ==> doc@.entries[j].platform != platform@,
        decreases doc.entries@.len() - i,
    {
        if str_eq(doc.entries[i].platform.as_str(), platform) {
            assert(doc@.entries[i as int].platform == platform@);
            assert(spec_index == i as int);
            return match &doc.entries[i].spdx {
                Some(d) => Ok(d.clone()),
                None => Err(ResolveError::NoCompatibleAttestation),
            };
        }
        i = i + 1;
    }
    assert(spec_index == -1);
    match &doc.top_level_spdx {
        Some(d) => Ok(d.clone()),
        None => Err(ResolveError::NoCompatibleAttestation),
    }
}

} // verus!

verus! {

/// Accepts what a generator run produced: the captured output on
/// success. A run that failed or whose output could not be read fails
/// this source only; the batch goes on without it.
pub fn accept_generator_output(output: Option<String>) -> (r: Result<String, ResolveError>)
    ensures
        (output matches Some(doc) ==> (r matches Ok(d) && d == doc)),
        output is None ==> (r matches Err(e) && e == ResolveError::GeneratorFailed),
{
    match output {
        Some(doc) => Ok(doc),
        None => Err(ResolveError::GeneratorFailed),
    }
}

} // verus!
