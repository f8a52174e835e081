use ssce::config::{Config, Source};
use ssce::pipeline::collect_successes;
use ssce::sbom::{
    accept_generator_output, after_cache_check, arch_platform, generator_args_for,
    plan_resolution, select_attestation, AttestationDoc, AttestationEntry, CacheCheck,
    CacheDecision, MissAction, ResolveError, Sbom, SbomEntry,
};

fn config(generate_sboms: bool) -> Config {
    Config {
        base_path: "/var/cache/ssce".to_string(),
        metrics_path: None,
        cache_duration: 86400,
        excludes: vec!["proc".to_string(), "sys".to_string()],
        generate_sboms,
    }
}

fn nginx() -> Source {
    Source::DockerImage { name: "nginx:latest".to_string(), id: "sha256:abc".to_string() }
}

#[test]
fn cache_path_is_a_function_of_the_image_id() {
    let c = config(true);
    assert_eq!(
        c.sbom_path(&nginx()),
        Some("/var/cache/ssce/sbom/docker/sha256:abc.json".to_string())
    );
    let renamed = Source::DockerImage { name: "other-tag".to_string(), id: "sha256:abc".to_string() };
    assert_eq!(c.sbom_path(&nginx()), c.sbom_path(&renamed));
}

#[test]
fn host_directories_are_never_cached() {
    let c = config(true);
    let dir = Source::HostDirectory { path: "/srv".to_string() };
    assert_eq!(c.sbom_path(&dir), None);
}

#[test]
fn metrics_path_defaults_under_the_cache_root() {
    assert_eq!(config(true).metrics_path(), "/var/cache/ssce/metrics/metrics.prom");
    let mut c = config(true);
    c.metrics_path = Some("/run/metrics.prom".to_string());
    assert_eq!(c.metrics_path(), "/run/metrics.prom");
}

#[test]
fn arch_platform_maps_known_architectures() {
    assert_eq!(arch_platform("x86_64"), "linux/amd64");
    assert_eq!(arch_platform("aarch64"), "linux/arm64");
    assert_eq!(arch_platform("riscv64"), "");
}

#[test]
fn generator_args_for_an_image() {
    let args = generator_args_for(&nginx(), &config(true).excludes);
    assert_eq!(
        args,
        vec![
            "scan",
            "--quiet",
            "-o",
            "spdx-json",
            "--override-default-catalogers",
            "all",
            "nginx:latest",
        ]
    );
}

#[test]
fn generator_args_for_a_directory_carry_relative_excludes() {
    let dir = Source::HostDirectory { path: "/".to_string() };
    let args = generator_args_for(&dir, &config(true).excludes);
    assert_eq!(
        args,
        vec![
            "scan",
            "--quiet",
            "-o",
            "spdx-json",
            "--override-default-catalogers",
            "all",
            "--exclude",
            ".proc",
            "--exclude",
            ".sys",
            "/",
        ]
    );
}

#[test]
fn active_mode_plans_a_generator_run() {
    let plan = plan_resolution(&config(true), &nginx(), "x86_64");
    assert_eq!(
        plan.cache_path,
        Some("/var/cache/ssce/sbom/docker/sha256:abc.json".to_string())
    );
    match plan.on_miss {
        MissAction::Generate { args, cache_path } => {
            assert_eq!(args.last().map(|s| s.as_str()), Some("nginx:latest"));
            assert_eq!(cache_path, plan.cache_path);
        },
        _ => panic!("active mode must plan a generator run"),
    }
}

#[test]
fn passive_mode_plans_an_attestation_lookup() {
    let plan = plan_resolution(&config(false), &nginx(), "x86_64");
    match plan.on_miss {
        MissAction::ReadAttestation { image, platform } => {
            assert_eq!(image, "nginx:latest");
            assert_eq!(platform, "linux/amd64");
        },
        _ => panic!("passive mode must plan an attestation lookup"),
    }
}

#[test]
fn passive_mode_skips_host_directories() {
    let dir = Source::HostDirectory { path: "/srv".to_string() };
    let plan = plan_resolution(&config(false), &dir, "x86_64");
    assert!(matches!(plan.on_miss, MissAction::Skip));
    assert_eq!(plan.cache_path, None);
}

#[test]
fn a_cache_hit_returns_the_cached_document_unchanged() {
    let doc = "{\"packages\":[]}".to_string();
    match after_cache_check(CacheCheck::Hit { document: doc.clone() }) {
        CacheDecision::UseDocument { document } => assert_eq!(document, doc),
        CacheDecision::RunMiss => panic!("a hit must not fall through to the miss action"),
    }
}

#[test]
fn an_absent_or_unreadable_cache_is_a_miss() {
    assert!(matches!(after_cache_check(CacheCheck::Absent), CacheDecision::RunMiss));
    assert!(matches!(after_cache_check(CacheCheck::Unreadable), CacheDecision::RunMiss));
}

#[test]
fn attestation_lookup_selects_the_host_platform() {
    let doc = AttestationDoc {
        entries: vec![
            AttestationEntry { platform: "linux/arm64".to_string(), spdx: None },
            AttestationEntry {
                platform: "linux/amd64".to_string(),
                spdx: Some("{\"SPDXID\":\"SPDXRef-DOCUMENT\"}".to_string()),
            },
        ],
        top_level_spdx: None,
    };
    let platform = arch_platform("x86_64");
    assert_eq!(
        select_attestation(&doc, platform.as_str()),
        Ok("{\"SPDXID\":\"SPDXRef-DOCUMENT\"}".to_string())
    );
}

#[test]
fn attestation_lookup_falls_back_to_the_unqualified_entry() {
    let doc = AttestationDoc {
        entries: vec![AttestationEntry { platform: "linux/arm64".to_string(), spdx: None }],
        top_level_spdx: Some("{\"SPDXID\":\"top\"}".to_string()),
    };
    assert_eq!(
        select_attestation(&doc, "linux/amd64"),
        Ok("{\"SPDXID\":\"top\"}".to_string())
    );
}

#[test]
fn an_entry_without_a_document_is_incompatible() {
    let doc = AttestationDoc {
        entries: vec![AttestationEntry { platform: "linux/amd64".to_string(), spdx: None }],
        top_level_spdx: Some("{\"SPDXID\":\"top\"}".to_string()),
    };
    assert_eq!(
        select_attestation(&doc, "linux/amd64"),
        Err(ResolveError::NoCompatibleAttestation)
    );
}

#[test]
fn an_image_without_attestations_is_incompatible() {
    let doc = AttestationDoc { entries: vec![], top_level_spdx: None };
    assert_eq!(
        select_attestation(&doc, "linux/amd64"),
        Err(ResolveError::NoCompatibleAttestation)
    );
}

#[test]
fn a_failed_generator_run_fails_only_this_source() {
    assert_eq!(accept_generator_output(None), Err(ResolveError::GeneratorFailed));
    let doc = "{\"packages\":[]}".to_string();
    assert_eq!(accept_generator_output(Some(doc.clone())), Ok(doc));
}

#[test]
fn collect_successes_keeps_exactly_the_ok_sources() {
    let a = Source::DockerImage { name: "a".to_string(), id: "1".to_string() };
    let b = Source::DockerImage { name: "b".to_string(), id: "2".to_string() };
    let sbom = Sbom {
        packages: vec![SbomEntry { name: "curl".to_string(), versionInfo: "8.4.0".to_string() }],
    };
    let results: Vec<(Source, Result<Sbom, ResolveError>)> = vec![
        (a, Err(ResolveError::GeneratorFailed)),
        (b.clone(), Ok(sbom)),
    ];
    let collected = collect_successes(results);
    assert_eq!(collected.len(), 1);
    assert_eq!(collected[0].0, b);
    assert_eq!(collected[0].1.packages[0].name, "curl");
}
