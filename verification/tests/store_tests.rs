use israel_prices::online_store::get_online_stores;
use israel_prices::store::get_debug_store_configs;
use israel_prices::store::get_minimal_store_configs;
use israel_prices::store::get_store_config;
use israel_prices::store::get_store_configs;
use israel_prices::store::Website;

#[test]
fn check_non_empty() {
    for s in get_store_configs() {
        assert!(!s.name.is_empty());
    }
}

#[test]
fn every_regulated_portal_is_configured() {
    let stores = get_store_configs();
    assert_eq!(stores.len(), 30);
    let names: Vec<&str> = stores.iter().map(|s| s.name).collect();
    assert!(names.contains(&"shufersal"));
    assert!(names.contains(&"rami_levy"));
    assert!(names.contains(&"superpharm"));
    assert!(names.contains(&"netiv_hahesed"));
}

#[test]
fn store_names_are_unique() {
    let stores = get_store_configs();
    for (i, a) in stores.iter().enumerate() {
        for b in stores.iter().skip(i + 1) {
            assert_ne!(a.name, b.name);
        }
    }
}

#[test]
fn lookup_finds_the_configured_portal() {
    let paz = get_store_config("paz").unwrap();
    assert_eq!(paz.name, "paz");
    assert!(matches!(paz.website, Website::PublishedPriceWithPassword(_, _)));
    let mega = get_store_config("mega").unwrap();
    assert!(matches!(mega.website, Website::PublishPrice(_)));
    assert!(get_store_config("no_such_store").is_none());
}

#[test]
fn minimal_list_names_do_not_match_the_table() {
    // The smoke-test list is capitalized while the configured names are
    // lower case, so the subset is empty; the behavior is kept as found.
    assert!(get_minimal_store_configs().is_empty());
}

#[test]
fn debug_subset_is_one_portal() {
    let debug = get_debug_store_configs();
    assert_eq!(debug.len(), 1);
    assert_eq!(debug[0].name, "superpharm");
}

#[test]
fn online_stores_are_configured() {
    let stores = get_online_stores();
    assert_eq!(stores.len(), 10);
    assert_eq!(stores[8].name, "rami_levy");
    assert_eq!(stores[9].name, "shufersal");
}
