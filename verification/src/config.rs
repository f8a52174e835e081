//! Scan-target identity and configuration.
//!
//! A `Source` names one scan target. Its equality is structural over all
//! fields: it is the key that correlates an SBOM with its vulnerability
//! report and the identity under which an SBOM is cached on disk. Paths
//! are modelled as plain strings; durations as whole seconds.

use vstd::prelude::*;
use vstd::string::*;

verus! {

/// A scan target: a container image known to the runtime, or a directory
/// of the host file system.
#[derive(Debug)]
pub enum Source {
    DockerImage { name: String, id: String },
    HostDirectory { path: String },
}

/// Mathematical value of a `Source`: the same shape over character
/// sequences.
pub enum SourceView {
    DockerImage { name: Seq<char>, id: Seq<char> },
    HostDirectory { path: Seq<char> },
}

impl View for Source {
    type V = SourceView;

    open spec fn view(&self) -> SourceView {
        match self {
            Source::DockerImage { name, id } => SourceView::DockerImage {
                name: name@,
                id: id@,
            },
            Source::HostDirectory { path } => SourceView::HostDirectory { path: path@ },
        }
    }
}

impl PartialEq for Source {
    fn eq(&self, other: &Source) -> (r: bool) {
        match (self, other) {
            (
                Source::DockerImage { name: n1, id: i1 },
                Source::DockerImage { name: n2, id: i2 },
            ) => *n1 == *n2 && *i1 == *i2,
            (Source::HostDirectory { path: p1 }, Source::HostDirectory { path: p2 }) => (*p1
                == *p2),
            _ => false,
        }
    }
}

impl vstd::std_specs::cmp::PartialEqSpecImpl for Source {
    open spec fn obeys_eq_spec() -> bool {
        true
    }

    open spec fn eq_spec(&self, other: &Source) -> bool {
        self@ == other@
    }
}

impl Clone for Source {
    fn clone(&self) -> (r: Source)
        ensures
            r@ == self@,
    {
        match self {
            Source::DockerImage { name, id } => Source::DockerImage {
                name: name.clone(),
                id: id.clone(),
            },
            Source::HostDirectory { path } => Source::HostDirectory { path: path.clone() },
        }
    }
}

/// What a container record may leave unset, an empty string stands for.
pub open spec fn field_or_empty(field: Option<String>) -> Seq<char> {
    match field {
        Some(s) => s@,
        None => Seq::<char>::empty(),
    }
}

impl Source {
    /// Builds the image source that a raw container record describes.
    /// A record may lack the image name or the image id; either becomes
    /// the empty string.
    pub fn from_record(image: Option<String>, image_id: Option<String>) -> (r: Source)
        ensures
            r@ == (SourceView::DockerImage {
                name: field_or_empty(image),
                id: field_or_empty(image_id),
            }),
    {
        let name = match image {
            Some(s) => s,
            None => String::new(),
        };
        let id = match image_id {
            Some(s) => s,
            None => String::new(),
        };
        Source::DockerImage { name, id }
    }

    /// Renders the target for log lines.
    pub fn describe(&self) -> (r: String)
        ensures
            r@ == describe_source(self@),
    {
        match self {
            Source::DockerImage { name, id } => {
                let mut r = String::from_str("OCI image ");
                r.append(name.as_str());
                r.append(" (");
                r.append(id.as_str());
                r.append(")");
                r
            },
            Source::HostDirectory { path } => {
                let mut r = String::from_str("Host directory ");
                r.append(path.as_str());
                r
            },
        }
    }
}

/// The human-readable form of a target.
pub open spec fn describe_source(s: SourceView) -> Seq<char> {
    match s {
        SourceView::DockerImage { name, id } => "OCI image "@ + name + " ("@ + id + ")"@,
        SourceView::HostDirectory { path } => "Host directory "@ + path,
    }
}

/// Run configuration: where cached SBOMs and the metrics file live, how
/// long a cached SBOM stays valid, which path patterns a directory scan
/// skips, and whether SBOMs are actively generated or only read from the
/// cache and from image attestations.
#[derive(Debug)]
pub struct Config {
    pub base_path: String,
    pub metrics_path: Option<String>,
    /// Eviction threshold for cached SBOMs, in whole seconds.
    pub cache_duration: u64,
    pub excludes: Vec<String>,
    pub generate_sboms: bool,
}

/// Mathematical value of a `Config`.
pub struct ConfigView {
    pub base_path: Seq<char>,
    pub metrics_path: Option<Seq<char>>,
    pub cache_duration: u64,
    pub excludes: Seq<Seq<char>>,
    pub generate_sboms: bool,
}

impl View for Config {
    type V = ConfigView;

    open spec fn view(&self) -> ConfigView {
        ConfigView {
            base_path: self.base_path@,
            metrics_path: match self.metrics_path {
                Some(p) => Some(p@),
                None => None,
            },
            cache_duration: self.cache_duration,
            excludes: self.excludes.deep_view(),
            generate_sboms: self.generate_sboms,
        }
    }
}

/// The cache path of an image source: a function of the image id alone,
/// under the configured cache root.
pub open spec fn sbom_cache_path(base_path: Seq<char>, id: Seq<char>) -> Seq<char> {
    base_path + "/sbom/docker/"@ + id + ".json"@
}

/// The fallback metrics path under the cache root.
pub open spec fn default_metrics_path(base_path: Seq<char>) -> Seq<char> {
    base_path + "/metrics/metrics.prom"@
}

impl Config {
    /// Where the SBOM of `source` is cached: a deterministic function of
    /// the image id for an image source; a host directory is never cached.
    pub fn sbom_path(&self, source: &Source) -> (r: Option<String>)
        ensures
            match source@ {
                SourceView::DockerImage { name, id } => {
                    &&& r is Some
                    &&& r->Some_0@ == sbom_cache_path(self.base_path@, id)
                },
                SourceView::HostDirectory { .. } => r is None,
            },
    {
        match source {
            Source::DockerImage { name: _, id } => {
                let mut p = self.base_path.clone();
                p.append("/sbom/docker/");
                p.append(id.as_str());
                p.append(".json");
                Some(p)
            },
            Source::HostDirectory { .. } => None,
        }
    }

    /// The path the metrics file is written to: the configured one, or
    /// `metrics/metrics.prom` under the cache root when none is set.
    pub fn metrics_path(&self) -> (r: String)
        ensures
            match self@.metrics_path {
                Some(p) => r@ == p,
                None => r@ == default_metrics_path(self.base_path@),
            },
    {
        match &self.metrics_path {
            Some(p) => p.clone(),
            None => {
                let mut r = self.base_path.clone();
                r.append("/metrics/metrics.prom");
                r
            },
        }
    }
}

/// Command-line arguments: the path of the configuration file.
#[derive(Debug)]
pub struct Cli {
    pub config: String,
}

/// The parts of a raw container record that later stages need: the image
/// name and its stable identifier.
#[derive(Debug)]
pub struct ImageInfo {
    pub name: String,
    pub id: String,
}

impl ImageInfo {
    /// Builds the record from a runtime answer that may leave either
    /// field unset; an unset field becomes the empty string.
    pub fn from_record(image: Option<String>, image_id: Option<String>) -> (r: ImageInfo)
        ensures
            r.name@ == field_or_empty(image),
            r.id@ == field_or_empty(image_id),
    {
        let name = match image {
            Some(s) => s,
            None => String::new(),
        };
        let id = match image_id {
            Some(s) => s,
            None => String::new(),
        };
        ImageInfo { name, id }
    }
}

} // verus!

verus! {

impl Clone for Config {
    fn clone(&self) -> (r: Config)
        ensures
            r@ == self@,
    {
        let ghost all = self.excludes.deep_view();
        let mut excludes: Vec<String> = Vec::new();
        let mut i: usize = 0;
        while i < self.excludes.len()
            invariant
                0 <= i <= self.excludes@.len(),
                all == self.excludes.deep_view(),
                excludes.deep_view() == all.take(i as int),
            decreases self.excludes@.len() - i,
        {
            let ghost before = excludes.deep_view();
            excludes.push(self.excludes[i].clone());
            proof {
                assert(all.take(i as int + 1).drop_last() =~= all.take(i as int));
                assert(excludes.deep_view() =~= before.push(all[i as int]));
                assert(excludes.deep_view() =~= all.take(i as int + 1));
            }
            i = i + 1;
        }
        proof {
            assert(all.take(self.excludes@.len() as int) =~= all);
        }
        Config {
            base_path: self.base_path.clone(),
            metrics_path: match &self.metrics_path {
                Some(p) => Some(p.clone()),
                None => None,
            },
            cache_duration: self.cache_duration,
            excludes,
            generate_sboms: self.generate_sboms,
        }
    }
}

} // verus!
