use israel_prices::file_info::FileInfo;
use israel_prices::file_info::FileType;
use israel_prices::file_info::ParseError;

#[test]
fn test_parse_prices_full() {
    let f: FileInfo = FileInfo::parse("Price7290058179875-040-202210261508.gz").unwrap();
    assert!(!f.is_interesting());
}

#[test]
fn parse_full_catalog_name() {
    let f = FileInfo::parse("PriceFull7290058179875-040-202210261508.gz").unwrap();
    assert_eq!(f.file_type, FileType::PriceFull);
    assert_eq!(f.chain, "7290058179875");
    assert_eq!(f.store, "040");
    assert_eq!(f.date, "202210261508");
    assert!(f.is_interesting());
}

#[test]
fn parse_store_list_with_two_segments() {
    let f = FileInfo::parse("Stores7290055700007-20221101.xml").unwrap();
    assert_eq!(f.file_type, FileType::StoresFull);
    assert_eq!(f.chain, "7290055700007");
    assert_eq!(f.store, "");
    assert_eq!(f.date, "20221101");
}

#[test]
fn parse_strips_url_parts() {
    let f = FileInfo::parse("http://host/dir/PriceFull1-2-3.gz?token=abc").unwrap();
    assert_eq!(f.filename, "PriceFull1-2-3.gz");
    assert_eq!(f.chain, "1");
    assert_eq!(f.store, "2");
    assert_eq!(f.date, "3");
    assert_eq!(f.source, "http://host/dir/PriceFull1-2-3.gz?token=abc");
}

#[test]
fn parse_noise_names_are_ignored() {
    for name in ["NULL123", "created_at", "Events9", "NewThing", "pic.jpg", ""] {
        let f = FileInfo::parse(name).unwrap();
        assert_eq!(f.file_type, FileType::Ignored);
        assert!(!f.is_interesting());
    }
}

#[test]
fn parse_unknown_name_is_hard_error() {
    assert_eq!(
        FileInfo::parse("WeeklySummary-2022.gz").unwrap_err(),
        ParseError::UnrecognizedFormat
    );
    // a recognized prefix without a dot is drift, too
    assert_eq!(
        FileInfo::parse("PriceFull7290-040-2022").unwrap_err(),
        ParseError::UnrecognizedFormat
    );
    // a catalog name with only two fields is drift
    assert_eq!(
        FileInfo::parse("PriceFull7290-2022.gz").unwrap_err(),
        ParseError::UnrecognizedFormat
    );
}

#[test]
fn parse_is_deterministic() {
    let a = FileInfo::parse("PriceFull1-2-3.gz").unwrap();
    let b = FileInfo::parse("PriceFull1-2-3.gz").unwrap();
    assert_eq!(a.chain, b.chain);
    assert_eq!(a.store, b.store);
    assert_eq!(a.date, b.date);
    assert_eq!(a.filename, b.filename);
}

#[test]
fn selector_keeps_most_recent_per_slot() {
    let older = FileInfo::parse("PriceFull123-04-202301010000.gz").unwrap();
    let newer = FileInfo::parse("PriceFull123-04-202301020000.gz").unwrap();
    let kept = FileInfo::keep_most_recents(vec![older, newer], None);
    assert_eq!(kept.len(), 1);
    assert_eq!(kept[0].date, "202301020000");
}

#[test]
fn selector_keeps_most_recent_regardless_of_order() {
    let older = FileInfo::parse("PriceFull123-04-202301010000.gz").unwrap();
    let newer = FileInfo::parse("PriceFull123-04-202301020000.gz").unwrap();
    let kept = FileInfo::keep_most_recents(vec![newer, older], None);
    assert_eq!(kept.len(), 1);
    assert_eq!(kept[0].date, "202301020000");
}

#[test]
fn selector_never_cuts_store_lists() {
    let s1 = FileInfo::parse("Stores111-20221101.xml").unwrap();
    let s2 = FileInfo::parse("Stores222-20221101.xml").unwrap();
    let p1 = FileInfo::parse("PriceFull111-01-20221101.gz").unwrap();
    let p2 = FileInfo::parse("PriceFull111-02-20221101.gz").unwrap();
    let p3 = FileInfo::parse("PriceFull222-01-20221101.gz").unwrap();
    let kept = FileInfo::keep_most_recents(vec![s1, p1, s2, p2, p3], Some(1));
    let stores: Vec<_> = kept
        .iter()
        .filter(|f| f.file_type == FileType::StoresFull)
        .collect();
    let non_stores: Vec<_> = kept
        .iter()
        .filter(|f| f.file_type != FileType::StoresFull)
        .collect();
    // both store lists survive; the three catalog slots are cut to the limit
    assert_eq!(stores.len(), 2);
    assert_eq!(non_stores.len(), 1);
}

#[test]
fn selector_without_limit_keeps_every_slot() {
    let p1 = FileInfo::parse("PriceFull111-01-20221101.gz").unwrap();
    let p2 = FileInfo::parse("PriceFull111-02-20221101.gz").unwrap();
    let p3 = FileInfo::parse("PriceFull111-02-20221102.gz").unwrap();
    let kept = FileInfo::keep_most_recents(vec![p1, p2, p3], None);
    assert_eq!(kept.len(), 2);
}

#[test]
fn selector_limit_larger_than_slots() {
    let p1 = FileInfo::parse("PriceFull111-01-20221101.gz").unwrap();
    let kept = FileInfo::keep_most_recents(vec![p1], Some(10));
    assert_eq!(kept.len(), 1);
}

#[test]
fn from_str_iter_filters_and_selects() {
    let names = vec![
        "PriceFull123-04-202301010000.gz".to_string(),
        "PriceFull123-04-202301020000.gz".to_string(),
        "Promo123-04-202301020000.gz".to_string(),
        "not-a-listing-entry".to_string(),
    ];
    let kept = FileInfo::from_str_iter(names, None);
    assert_eq!(kept.len(), 1);
    assert_eq!(kept[0].date, "202301020000");
    assert_eq!(kept[0].file_type, FileType::PriceFull);
}

#[test]
fn with_source_and_cookie_replace_fields() {
    let f = FileInfo::parse("PriceFull1-2-3.gz").unwrap();
    let f = f.with_source("/d/link").with_cookie("sid=9");
    assert_eq!(f.source, "/d/link");
    assert_eq!(f.cookie, "sid=9");
    assert_eq!(f.filename, "PriceFull1-2-3.gz");
    let key = f.key();
    assert_eq!(key.0, FileType::PriceFull);
    assert_eq!(key.1, "1");
    assert_eq!(key.2, "2");
}
