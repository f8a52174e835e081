use ssce::janitor::{has_json_extension, select_evictions, should_evict, FileMeta};

fn meta(path: &str, is_file: bool, age_secs: Option<u64>) -> FileMeta {
    FileMeta { path: path.to_string(), is_file, age_secs }
}

const DURATION: u64 = 86400;

#[test]
fn json_extensions_are_recognised() {
    assert!(has_json_extension("/var/cache/sbom/docker/sha256:abc.json"));
    assert!(has_json_extension("x.json"));
    assert!(!has_json_extension("/var/cache/notes.txt"));
    assert!(!has_json_extension("/var/cache/json"));
    assert!(!has_json_extension(".json"));
    assert!(!has_json_extension("/var/cache/.json"));
    assert!(!has_json_extension("/var/dir.json/file"));
}

#[test]
fn a_file_one_second_younger_than_the_threshold_is_retained() {
    let f = meta("/var/cache/a.json", true, Some(DURATION - 1));
    assert!(!should_evict(&f, DURATION));
}

#[test]
fn a_file_one_second_older_than_the_threshold_is_deleted() {
    let f = meta("/var/cache/a.json", true, Some(DURATION + 1));
    assert!(should_evict(&f, DURATION));
}

#[test]
fn a_file_exactly_at_the_threshold_is_deleted() {
    let f = meta("/var/cache/a.json", true, Some(DURATION));
    assert!(should_evict(&f, DURATION));
}

#[test]
fn non_json_files_are_never_deleted() {
    let f = meta("/var/cache/a.txt", true, Some(DURATION * 100));
    assert!(!should_evict(&f, DURATION));
}

#[test]
fn files_without_an_access_time_are_kept() {
    let f = meta("/var/cache/a.json", true, None);
    assert!(!should_evict(&f, DURATION));
}

#[test]
fn directories_are_never_deleted() {
    let f = meta("/var/cache/old.json", false, Some(DURATION * 100));
    assert!(!should_evict(&f, DURATION));
}

#[test]
fn eviction_selects_exactly_the_stale_cache_files() {
    let files = vec![
        meta("/c/fresh.json", true, Some(DURATION - 1)),
        meta("/c/stale.json", true, Some(DURATION + 1)),
        meta("/c/old.txt", true, Some(DURATION * 10)),
        meta("/c/dir.json", false, Some(DURATION * 10)),
        meta("/c/unknown.json", true, None),
        meta("/c/ancient.json", true, Some(DURATION * 10)),
    ];
    let evicted = select_evictions(&files, DURATION);
    assert_eq!(evicted, vec!["/c/stale.json", "/c/ancient.json"]);
}
