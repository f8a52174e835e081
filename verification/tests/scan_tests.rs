use ssce::config::Source;
use ssce::scan::{
    db_update_args_for, scan_batch_decision, scanner_args_for, Scan, ScanError,
};

fn source(name: &str, id: &str) -> Source {
    Source::DockerImage { name: name.to_string(), id: id.to_string() }
}

#[test]
fn the_database_refresh_runs_quietly() {
    assert_eq!(db_update_args_for(), vec!["db", "update", "--quiet"]);
}

#[test]
fn scanner_runs_ask_for_structured_output() {
    assert_eq!(scanner_args_for(), vec!["--quiet", "-o", "json"]);
}

#[test]
fn a_failed_database_refresh_is_fatal_for_the_batch() {
    let results: Vec<(Source, Result<Scan, ()>)> =
        vec![(source("a", "1"), Ok(Scan { matches: vec![] }))];
    match scan_batch_decision(false, results) {
        Err(e) => assert_eq!(e, ScanError::DbRefreshFailed),
        Ok(_) => panic!("a failed refresh must abort the batch"),
    }
}

#[test]
fn one_failed_scan_leaves_the_other_sources_standing() {
    let a = source("a", "1");
    let b = source("b", "2");
    let results: Vec<(Source, Result<Scan, ()>)> = vec![
        (a, Err(())),
        (b.clone(), Ok(Scan { matches: vec![] })),
    ];
    let scans = scan_batch_decision(true, results).unwrap();
    assert_eq!(scans.len(), 1);
    assert_eq!(scans[0].0, b);
}
