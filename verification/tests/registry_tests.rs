use ssce::config::{ImageInfo, Source};
use ssce::registry::{collect_sources, dedup_sources};

fn image(name: &str, id: &str) -> Source {
    Source::DockerImage { name: name.to_string(), id: id.to_string() }
}

#[test]
fn identical_records_collapse_to_one() {
    let out = dedup_sources(vec![
        image("nginx:latest", "sha256:abc"),
        image("nginx:latest", "sha256:abc"),
    ]);
    assert_eq!(out.len(), 1);
    assert_eq!(out[0], image("nginx:latest", "sha256:abc"));
}

#[test]
fn identical_records_collapse_regardless_of_order() {
    let a = image("nginx:latest", "sha256:abc");
    let b = image("redis:7", "sha256:def");
    let first = dedup_sources(vec![a.clone(), b.clone(), a.clone()]);
    let second = dedup_sources(vec![b.clone(), a.clone(), a.clone()]);
    assert_eq!(first.iter().filter(|s| **s == a).count(), 1);
    assert_eq!(second.iter().filter(|s| **s == a).count(), 1);
    assert_eq!(first.len(), 2);
    assert_eq!(second.len(), 2);
}

#[test]
fn first_seen_order_is_kept() {
    let a = image("a", "1");
    let b = image("b", "2");
    let c = image("c", "3");
    let out = dedup_sources(vec![a.clone(), b.clone(), a.clone(), c.clone(), b.clone()]);
    assert_eq!(out, vec![a, b, c]);
}

#[test]
fn same_name_different_id_stays_distinct() {
    let out = dedup_sources(vec![image("nginx", "sha256:abc"), image("nginx", "sha256:def")]);
    assert_eq!(out.len(), 2);
}

#[test]
fn directories_and_images_never_collapse() {
    let dir = Source::HostDirectory { path: "/srv".to_string() };
    let out = dedup_sources(vec![dir.clone(), image("nginx", "sha256:abc"), dir.clone()]);
    assert_eq!(out.len(), 2);
    assert_eq!(out[0], dir);
}

#[test]
fn collect_sources_builds_and_dedups() {
    let out = collect_sources(vec![
        (Some("nginx:latest".to_string()), Some("sha256:abc".to_string())),
        (Some("nginx:latest".to_string()), Some("sha256:abc".to_string())),
        (None, Some("sha256:def".to_string())),
    ]);
    assert_eq!(out.len(), 2);
    assert_eq!(out[0], image("nginx:latest", "sha256:abc"));
    assert_eq!(out[1], image("", "sha256:def"));
}

#[test]
fn source_from_record_defaults_missing_fields() {
    let s = Source::from_record(None, None);
    assert_eq!(s, image("", ""));
}

#[test]
fn image_info_from_record_defaults_missing_fields() {
    let info = ImageInfo::from_record(Some("nginx".to_string()), None);
    assert_eq!(info.name, "nginx");
    assert_eq!(info.id, "");
}

#[test]
fn describe_names_the_target() {
    assert_eq!(
        image("nginx:latest", "sha256:abc").describe(),
        "OCI image nginx:latest (sha256:abc)"
    );
    let dir = Source::HostDirectory { path: "/srv/data".to_string() };
    assert_eq!(dir.describe(), "Host directory /srv/data");
}
