use ssce::config::{Config, Source};
use ssce::metrics::{
    cvss_label_triple, export_metrics, join_with_comma, make_title, sbom_counters, scan_counters,
    SourceLabels,
};
use ssce::sbom::{Sbom, SbomEntry};
use ssce::scan::{
    Cvss, CvssMetrics, Fix, FixState, Scan, ScanArtifact, ScanEntry, Vulnerability,
};

fn nginx() -> Source {
    Source::DockerImage { name: "nginx:latest".to_string(), id: "sha256:abc".to_string() }
}

fn entry(name: &str, version: &str) -> SbomEntry {
    SbomEntry { name: name.to_string(), versionInfo: version.to_string() }
}

fn cvss(base: &str, exploitability: &str, impact: &str) -> Cvss {
    Cvss {
        source: "nvd".to_string(),
        cvss_type: "Primary".to_string(),
        version: "3.1".to_string(),
        vector: "AV:N".to_string(),
        metrics: CvssMetrics {
            base_score: base.to_string(),
            exploitability_score: exploitability.to_string(),
            impact_score: impact.to_string(),
        },
    }
}

fn vulnerability(id: &str, cvss_records: Vec<Cvss>) -> Vulnerability {
    Vulnerability {
        id: id.to_string(),
        severity: "High".to_string(),
        urls: vec!["https://a".to_string(), "https://b".to_string()],
        fix: Fix { versions: vec!["8.5.0".to_string()], state: FixState::Fixed },
        cvss: cvss_records,
    }
}

#[test]
fn source_labels_flatten_exactly_the_applicable_fields() {
    let labels = SourceLabels::of_source(&nginx());
    assert_eq!(labels.image, Some("nginx:latest".to_string()));
    assert_eq!(labels.id, Some("sha256:abc".to_string()));
    assert_eq!(labels.path, None);
    let dir = Source::HostDirectory { path: "/srv".to_string() };
    let labels = SourceLabels::from(dir);
    assert_eq!(labels.image, None);
    assert_eq!(labels.id, None);
    assert_eq!(labels.path, Some("/srv".to_string()));
}

#[test]
fn empty_versions_are_skipped() {
    let sbom = Sbom { packages: vec![entry("curl", "8.4.0"), entry("curl", "")] };
    let other = Source::DockerImage { name: "redis:7".to_string(), id: "sha256:def".to_string() };
    let counters = sbom_counters(&vec![(nginx(), sbom), (other, Sbom { packages: vec![] })]);
    assert_eq!(counters.len(), 1);
    assert_eq!(counters[0].0.software, "curl");
    assert_eq!(counters[0].0.version, "8.4.0");
    assert_eq!(counters[0].0.source.image, Some("nginx:latest".to_string()));
    assert_eq!(counters[0].1, 1);
}

#[test]
fn repeated_packages_increment_one_counter() {
    let sbom = Sbom {
        packages: vec![entry("curl", "8.4.0"), entry("zlib", "1.3"), entry("curl", "8.4.0")],
    };
    let counters = sbom_counters(&vec![(nginx(), sbom)]);
    assert_eq!(counters.len(), 2);
    assert_eq!(counters[0].0.software, "curl");
    assert_eq!(counters[0].1, 2);
    assert_eq!(counters[1].0.software, "zlib");
    assert_eq!(counters[1].1, 1);
}

#[test]
fn the_same_package_in_two_sources_counts_separately() {
    let a = Sbom { packages: vec![entry("curl", "8.4.0")] };
    let b = Sbom { packages: vec![entry("curl", "8.4.0")] };
    let other = Source::DockerImage { name: "redis:7".to_string(), id: "sha256:def".to_string() };
    let counters = sbom_counters(&vec![(nginx(), a), (other, b)]);
    assert_eq!(counters.len(), 2);
    assert_eq!(counters[0].1, 1);
    assert_eq!(counters[1].1, 1);
}

#[test]
fn an_empty_cvss_list_yields_the_undefined_triple() {
    let (base, exploitability, impact) = cvss_label_triple(&vec![]);
    assert_eq!(base, "undefined");
    assert_eq!(exploitability, "undefined");
    assert_eq!(impact, "undefined");
}

#[test]
fn the_first_cvss_record_provides_the_scores() {
    let records = vec![cvss("7.5", "3.9", "3.6"), cvss("9.8", "3.9", "5.9")];
    let (base, exploitability, impact) = cvss_label_triple(&records);
    assert_eq!(base, "7.5");
    assert_eq!(exploitability, "3.9");
    assert_eq!(impact, "3.6");
}

#[test]
fn joining_label_values() {
    assert_eq!(join_with_comma(&vec![]), "");
    assert_eq!(join_with_comma(&vec!["a".to_string()]), "a");
    assert_eq!(join_with_comma(&vec!["a".to_string(), "b".to_string()]), "a, b");
}

#[test]
fn titles_name_image_package_and_id() {
    let title = make_title(
        &Some("nginx:latest".to_string()),
        &"curl".to_string(),
        &"CVE-2023-38545".to_string(),
    );
    assert_eq!(title, "nginx:latest curl: CVE-2023-38545");
    let untitled = make_title(&None, &"curl".to_string(), &"CVE-2023-38545".to_string());
    assert_eq!(untitled, " curl: CVE-2023-38545");
}

#[test]
fn fix_states_render_for_the_fixed_label() {
    assert_eq!(FixState::Unknown.to_label(), "Unknown");
    assert_eq!(FixState::Fixed.to_label(), "Fixed");
    assert_eq!(FixState::NotFixed.to_label(), "NotFixed");
    assert_eq!(FixState::WontFix.to_label(), "WontFix");
}

#[test]
fn scan_counters_carry_the_full_label_set() {
    let scan = Scan {
        matches: vec![ScanEntry {
            vulnerability: vulnerability("CVE-2023-38545", vec![cvss("9.8", "3.9", "5.9")]),
            artifact: ScanArtifact { name: "curl".to_string() },
        }],
    };
    let date = "2026-10-08".to_string();
    let counters = scan_counters(&vec![(nginx(), scan)], &date);
    assert_eq!(counters.len(), 1);
    let labels = &counters[0].0;
    assert_eq!(labels.cve, "CVE-2023-38545");
    assert_eq!(labels.cvss_base_score, "9.8");
    assert_eq!(labels.cvss_exploitability_score, "3.9");
    assert_eq!(labels.cvss_impact_score, "5.9");
    assert_eq!(labels.severity, "High");
    assert_eq!(labels.urls, "https://a, https://b");
    assert_eq!(labels.software, "curl");
    assert_eq!(labels.fixed, "Fixed");
    assert_eq!(labels.fixed_versions, "8.5.0");
    assert_eq!(labels.scan_date, "2026-10-08");
    assert_eq!(labels.title, "nginx:latest curl: CVE-2023-38545");
    assert_eq!(labels.source.image, Some("nginx:latest".to_string()));
    assert_eq!(counters[0].1, 1);
}

#[test]
fn a_vulnerability_without_scores_reports_undefined_labels() {
    let scan = Scan {
        matches: vec![ScanEntry {
            vulnerability: vulnerability("CVE-2024-0001", vec![]),
            artifact: ScanArtifact { name: "zlib".to_string() },
        }],
    };
    let counters = scan_counters(&vec![(nginx(), scan)], &"2026-10-08".to_string());
    assert_eq!(counters[0].0.cvss_base_score, "undefined");
    assert_eq!(counters[0].0.cvss_exploitability_score, "undefined");
    assert_eq!(counters[0].0.cvss_impact_score, "undefined");
}

#[test]
fn export_metrics_aggregates_both_families() {
    let config = Config {
        base_path: "/var/cache/ssce".to_string(),
        metrics_path: None,
        cache_duration: 86400,
        excludes: vec![],
        generate_sboms: true,
    };
    let sboms = vec![(nginx(), Sbom { packages: vec![entry("curl", "8.4.0")] })];
    let scans = vec![(
        nginx(),
        Scan {
            matches: vec![ScanEntry {
                vulnerability: vulnerability("CVE-2023-38545", vec![]),
                artifact: ScanArtifact { name: "curl".to_string() },
            }],
        },
    )];
    let export = export_metrics(&config, &sboms, &scans);
    assert_eq!(export.path, "/var/cache/ssce/metrics/metrics.prom");
    assert_eq!(export.sbom_counters.len(), 1);
    assert_eq!(export.sbom_counters[0].0.software, "curl");
    assert_eq!(export.scan_counters.len(), 1);
    assert_eq!(export.scan_counters[0].0.cve, "CVE-2023-38545");
    assert!(!export.scan_counters[0].0.scan_date.is_empty());
}
