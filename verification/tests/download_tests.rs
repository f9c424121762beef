use israel_prices::adapters::AdapterError;
use israel_prices::download::accept_body;
use israel_prices::download::decide_fetch;
use israel_prices::download::dest_path;
use israel_prices::download::Download;
use israel_prices::download::FetchDecision;
use israel_prices::download::FetchOutcome;
use israel_prices::download::PermitCounter;
use israel_prices::orchestrator::collect_downloads;

#[test]
fn dest_is_a_pure_function_of_source_and_name() {
    assert_eq!(dest_path("mega", "PriceFull1-2-3.gz"), "data_raw/mega/PriceFull1-2-3.gz");
}

#[test]
fn gzip_magic_is_accepted() {
    let body = vec![0x1fu8, 0x8b, 0x00, 0x11];
    assert!(accept_body("data_raw/x/a.gz", &body));
}

#[test]
fn zip_magic_is_accepted() {
    let body = vec![0x50u8, 0x4b, 0x03, 0x04];
    assert!(accept_body("data_raw/x/a.gz", &body));
}

#[test]
fn other_leading_bytes_trigger_retry() {
    let body = vec![b'<', b'h', b't', b'm', b'l'];
    assert!(!accept_body("data_raw/x/a.gz", &body));
    let outcome = FetchOutcome::Body(body);
    assert_eq!(decide_fetch("data_raw/x/a.gz", &outcome), FetchDecision::Retry);
}

#[test]
fn non_archive_destinations_skip_the_check() {
    let body = vec![b'<', b'x', b'm', b'l'];
    assert!(accept_body("data_raw/x/a.xml", &body));
    let outcome = FetchOutcome::Body(body);
    assert_eq!(decide_fetch("data_raw/x/a.xml", &outcome), FetchDecision::Write);
}

#[test]
fn failed_fetch_is_retried() {
    assert_eq!(decide_fetch("data_raw/x/a.gz", &FetchOutcome::Failed), FetchDecision::Retry);
}

#[test]
fn permit_counter_never_exceeds_its_cap() {
    let mut permits = PermitCounter::new(3);
    let mut peak: usize = 0;
    let mut granted: usize = 0;
    for _ in 0..10 {
        if permits.try_acquire() {
            granted += 1;
        }
        assert!(permits.in_flight() <= permits.limit());
        if permits.in_flight() > peak {
            peak = permits.in_flight();
        }
    }
    assert_eq!(granted, 3);
    assert_eq!(peak, 3);
    permits.release();
    assert!(permits.try_acquire());
    assert!(!permits.try_acquire());
    assert_eq!(permits.in_flight(), 3);
}

fn plain_download(path: &str) -> Download {
    Download {
        store: "one".to_string(),
        path: path.to_string(),
        headers: None,
        dest: format!("data_raw/one/{path}"),
    }
}

#[test]
fn failed_discovery_does_not_block_the_next_source() {
    let discoveries = vec![
        Err(AdapterError::RequestFailed),
        Ok(vec![plain_download("PriceFull1-2-3.gz")]),
    ];
    let all = collect_downloads(discoveries, false);
    assert_eq!(all.len(), 1);
    assert_eq!(all[0].path, "PriceFull1-2-3.gz");
}

#[test]
fn quick_mode_downloads_nothing() {
    let discoveries = vec![Ok(vec![plain_download("PriceFull1-2-3.gz")])];
    let all = collect_downloads(discoveries, true);
    assert!(all.is_empty());
}

#[test]
fn collect_keeps_source_order() {
    let discoveries = vec![
        Ok(vec![plain_download("a.gz")]),
        Err(AdapterError::StructureMismatch),
        Ok(vec![plain_download("b.gz"), plain_download("c.gz")]),
    ];
    let all = collect_downloads(discoveries, false);
    let paths: Vec<&str> = all.iter().map(|d| d.path.as_str()).collect();
    assert_eq!(paths, vec!["a.gz", "b.gz", "c.gz"]);
}

#[test]
fn two_byte_bodies_skip_the_magic_check() {
    // The check reads the first two bytes only of bodies longer than two
    // bytes; a shorter body is written as served.
    let body = vec![0x00u8, 0x00];
    assert!(accept_body("data_raw/x/a.gz", &body));
}
