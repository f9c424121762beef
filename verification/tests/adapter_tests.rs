use israel_prices::adapters::cookie_prefix;
use israel_prices::adapters::csrf_token;
use israel_prices::adapters::dedup_strings;
use israel_prices::adapters::display_date_param;
use israel_prices::adapters::headers_with_cookie;
use israel_prices::adapters::matrix_candidates;
use israel_prices::adapters::matrix_downloads;
use israel_prices::adapters::matrix_page_rows;
use israel_prices::adapters::netiv_form_params;
use israel_prices::adapters::netiv_page_links;
use israel_prices::adapters::page_count;
use israel_prices::adapters::page_url;
use israel_prices::adapters::parse_display_date;
use israel_prices::adapters::prev_day;
use israel_prices::adapters::publish_price_candidates;
use israel_prices::adapters::publish_price_date_href;
use israel_prices::adapters::publishedprice_candidates;
use israel_prices::adapters::publishedprice_dir_body;
use israel_prices::adapters::publishedprice_downloads;
use israel_prices::adapters::publishedprice_login_body;
use israel_prices::adapters::remove_quotes;
use israel_prices::adapters::rows_with_cookie;
use israel_prices::adapters::shufersal_candidates;
use israel_prices::adapters::shufersal_downloads;
use israel_prices::adapters::shufersal_page_links;
use israel_prices::adapters::simple_json_candidates;
use israel_prices::adapters::simple_json_downloads;
use israel_prices::adapters::superpharm_candidates;
use israel_prices::adapters::superpharm_page_rows;
use israel_prices::adapters::superpharm_resolve;
use israel_prices::adapters::superpharm_resolve_request;
use israel_prices::adapters::AdapterError;
use israel_prices::adapters::SimpleDate;
use israel_prices::curate::curate_data_raw;
use israel_prices::curate::extract_chain_id_and_store_id;

#[test]
fn csrf_is_read_from_the_meta_tag() {
    let html = "<html><head><meta name=\"csrftoken\" content=\"tok123\"/></head><body></body></html>";
    assert_eq!(csrf_token(html).unwrap(), "tok123");
    assert_eq!(csrf_token("<html></html>").unwrap_err(), AdapterError::StructureMismatch);
}

#[test]
fn login_body_carries_credentials_and_token() {
    let body = publishedprice_login_body("user1", "pw", "tok");
    assert_eq!(body, "r=&username=user1&password=pw&Submit=Sign+in&csrftoken=tok");
}

#[test]
fn dir_body_ends_with_the_token() {
    let body = publishedprice_dir_body("tok9");
    assert!(body.starts_with("sEcho=1&iColumns=5"));
    assert!(body.ends_with("&csrftoken=tok9"));
}

#[test]
fn listing_names_are_unquoted_parsed_and_selected() {
    let text = "{\"aaData\":[\
        {\"fname\":\"PriceFull7290058179875-040-202210261508.gz\"},\
        {\"fname\":\"Stores7290058179875-20221026.xml\"},\
        {\"fname\":\"Promo7290058179875-040-202210261508.gz\"}]}";
    let candidates = publishedprice_candidates(text, None).unwrap();
    assert_eq!(candidates.len(), 2);
    let downloads = publishedprice_downloads("dor_alon", "sid=1", candidates);
    assert_eq!(downloads.len(), 2);
    for d in &downloads {
        assert!(d.path.starts_with("https://url.publishedprices.co.il/file/d/"));
        assert!(d.dest.starts_with("data_raw/dor_alon/"));
        let headers = d.headers.as_ref().unwrap();
        assert!(headers.contains(&("Cookie".to_string(), "sid=1".to_string())));
    }
}

#[test]
fn listing_without_the_array_is_structural_drift() {
    assert_eq!(
        publishedprice_candidates("{\"other\":1}", None).unwrap_err(),
        AdapterError::StructureMismatch
    );
    assert_eq!(
        publishedprice_candidates("not json at all", None).unwrap_err(),
        AdapterError::StructureMismatch
    );
}

#[test]
fn simple_json_listing_maps_onto_the_template() {
    let text = "[{\"FileNm\":\"PriceFull729-001-20230101.gz\"}]";
    let candidates = simple_json_candidates(text, None).unwrap();
    assert_eq!(candidates.len(), 1);
    let downloads =
        simple_json_downloads("king_store", "https://host/Download/", candidates);
    assert_eq!(downloads[0].path, "https://host/Download/PriceFull729-001-20230101.gz");
    assert_eq!(downloads[0].dest, "data_raw/king_store/PriceFull729-001-20230101.gz");
    assert!(downloads[0].headers.is_none());
}

#[test]
fn simple_json_drift_is_an_error() {
    assert_eq!(
        simple_json_candidates("[{\"Other\":\"x\"}]", None).unwrap_err(),
        AdapterError::StructureMismatch
    );
}

#[test]
fn page_count_reads_the_marker_link() {
    let html = "<div class=\"page_link\">\
        <a href=\"/?page=2\">2</a><a href=\"/?page=7\">&gt;&gt;</a></div>";
    assert_eq!(page_count(html, ".page_link a").unwrap(), 7);
    assert_eq!(
        page_count("<div></div>", ".page_link a").unwrap_err(),
        AdapterError::StructureMismatch
    );
    let bad = "<div class=\"page_link\"><a href=\"nopage\">&gt;&gt;</a></div>";
    assert_eq!(page_count(bad, ".page_link a").unwrap_err(), AdapterError::StructureMismatch);
}

#[test]
fn page_urls_append_the_number() {
    assert_eq!(
        page_url("http://prices.shufersal.co.il/FileObject/UpdateCategory?page=", 12),
        "http://prices.shufersal.co.il/FileObject/UpdateCategory?page=12"
    );
}

#[test]
fn shufersal_links_are_scraped_deduped_and_selected() {
    let html = "<table><tbody>\
        <tr><td><a href=\"http://h/PriceFull1-2-20230101.gz\">x</a></td></tr>\
        <tr><td><a href=\"http://h/PriceFull1-2-20230101.gz\">x</a></td></tr>\
        </tbody></table>";
    let links = shufersal_page_links(html).unwrap();
    assert_eq!(links.len(), 2);
    let candidates = shufersal_candidates(links, None);
    assert_eq!(candidates.len(), 1);
    let downloads = shufersal_downloads("shufersal", candidates);
    assert_eq!(downloads[0].path, "http://h/PriceFull1-2-20230101.gz");
    assert_eq!(downloads[0].dest, "data_raw/shufersal/PriceFull1-2-20230101.gz");
}

#[test]
fn dedup_keeps_first_occurrences() {
    let v = vec!["a".to_string(), "b".to_string(), "a".to_string()];
    assert_eq!(dedup_strings(v), vec!["a".to_string(), "b".to_string()]);
}

#[test]
fn superpharm_rows_and_resolution() {
    let html = "<table class=\"file_list\">\
        <tr><th>name</th></tr>\
        <tr><td>1</td><td>PriceFull7290172900007-001-202301010000.gz</td>\
        <td>2</td><td>3</td><td>4</td><td><a href=\"/Download?id=5\">get</a></td></tr>\
        </table>";
    let rows = superpharm_page_rows(html).unwrap();
    assert_eq!(rows.len(), 1);
    assert_eq!(rows[0].0, "PriceFull7290172900007-001-202301010000.gz");
    assert_eq!(rows[0].1, "/Download?id=5");

    let tagged = rows_with_cookie(rows, "sid=77");
    let candidates = superpharm_candidates(tagged, None);
    assert_eq!(candidates.len(), 1);
    assert_eq!(candidates[0].cookie, "sid=77");
    assert_eq!(candidates[0].source, "/Download?id=5");

    let (url, headers) = superpharm_resolve_request(&candidates[0]);
    assert_eq!(url, "http://prices.super-pharm.co.il/Download?id=5");
    assert_eq!(headers, vec![("Cookie".to_string(), "sid=77".to_string())]);

    let resolved = superpharm_resolve("{\"href\":\"/files/f.gz\"}").unwrap();
    assert_eq!(resolved, "http://prices.super-pharm.co.il/files/f.gz");
    assert_eq!(
        superpharm_resolve("{\"nothing\":1}").unwrap_err(),
        AdapterError::StructureMismatch
    );
}

#[test]
fn netiv_links_and_form_state() {
    let html = "<div id=\"download_content\">\
        <a href=\"PriceFull1-2-3.gz\">a</a><a href=\"Stores1-2.xml\">b</a></div>";
    let links = netiv_page_links(html).unwrap();
    assert_eq!(links.len(), 2);
    let params = netiv_form_params("vs", "gen", "ev", "25/10/2022");
    assert_eq!(params.len(), 4);
    assert_eq!(params[0], ("__VIEWSTATE".to_string(), "vs".to_string()));
    assert_eq!(params[3].1, "25/10/2022");
}

#[test]
fn rolling_dates_walk_the_calendar() {
    let d = parse_display_date("26/10/2022").unwrap();
    assert_eq!(d, SimpleDate { year: 2022, month: 10, day: 26 });
    assert_eq!(prev_day(&d), SimpleDate { year: 2022, month: 10, day: 25 });
    let first = SimpleDate { year: 2023, month: 3, day: 1 };
    assert_eq!(prev_day(&first), SimpleDate { year: 2023, month: 2, day: 28 });
    let leap = SimpleDate { year: 2024, month: 3, day: 1 };
    assert_eq!(prev_day(&leap), SimpleDate { year: 2024, month: 2, day: 29 });
    let newyear = SimpleDate { year: 2023, month: 1, day: 1 };
    assert_eq!(prev_day(&newyear), SimpleDate { year: 2022, month: 12, day: 31 });
    assert_eq!(display_date_param(&SimpleDate { year: 2022, month: 3, day: 5 }), "5/3/2022");
    assert_eq!(
        parse_display_date("31/11/2022").unwrap_err(),
        AdapterError::StructureMismatch
    );
    assert_eq!(parse_display_date("2022-11-01").unwrap_err(), AdapterError::StructureMismatch);
}

#[test]
fn publish_price_follows_the_dated_directory() {
    let html = "<table id=\"files\">\
        <tr><td>h</td></tr><tr><td>h</td></tr><tr><td>h</td></tr>\
        <tr><td><a href=\"20221030/\">old</a><a href=\"20221031/\">new</a></td></tr>\
        </table>";
    assert_eq!(publish_price_date_href(html).unwrap(), "20221031/");
    let links = vec![
        "h1".to_string(),
        "h2".to_string(),
        "h3".to_string(),
        "PriceFull1-2-20221031.gz".to_string(),
    ];
    let candidates = publish_price_candidates(links, None);
    assert_eq!(candidates.len(), 1);
    assert_eq!(candidates[0].filename, "PriceFull1-2-20221031.gz");
}

#[test]
fn matrix_rows_are_filtered_by_chain() {
    let html = "<div id=\"download_content\"><table>\
        <tr><th>h</th></tr>\
        <tr><td>1</td><td>alpha</td><td>x</td><td><a href=\"PriceFull1-1-20230101.gz\">d</a></td></tr>\
        <tr><td>1</td><td>beta</td><td>x</td><td><a href=\"PriceFull2-2-20230101.gz\">d</a></td></tr>\
        </table></div>";
    let rows = matrix_page_rows(html).unwrap();
    assert_eq!(rows.len(), 2);
    let candidates = matrix_candidates(rows, "alpha", None);
    assert_eq!(candidates.len(), 1);
    assert_eq!(candidates[0].chain, "1");
    let downloads = matrix_downloads("victory", candidates);
    assert_eq!(downloads[0].path, "http://matrixcatalog.co.il/PriceFull1-1-20230101.gz");
}

#[test]
fn cookies_and_quotes_are_cleaned() {
    assert_eq!(cookie_prefix("sid=1; Path=/; HttpOnly"), "sid=1");
    assert_eq!(cookie_prefix("bare"), "bare");
    assert_eq!(remove_quotes("\"PriceFull1-2-3.gz\""), "PriceFull1-2-3.gz");
    let headers = headers_with_cookie("sid=2");
    assert_eq!(headers.len(), 2);
    assert_eq!(headers[1], ("Cookie".to_string(), "sid=2".to_string()));
}

#[test]
fn curation_commands_are_fixed() {
    let commands = curate_data_raw();
    assert_eq!(
        commands,
        vec![
            "rm data_raw/rami_levy/storesfull* -f".to_string(),
            "find data_raw -type f -empty -print -delete".to_string(),
            "find data_raw -type f -name \"*.x1\" -print -delete".to_string(),
            "for file in data_raw/*/*.gz; do gunzip $file; done".to_string(),
        ]
    );
}

#[test]
fn chain_and_store_come_off_the_processed_name() {
    assert_eq!(
        extract_chain_id_and_store_id("7290058179875_040.csv").unwrap(),
        (7290058179875i64, 40i32)
    );
    assert!(extract_chain_id_and_store_id("no-underscore.csv").is_err());
    assert!(extract_chain_id_and_store_id("nodot_1").is_err());
    assert!(extract_chain_id_and_store_id("a_b.csv").is_err());
}

#[test]
fn hidden_form_state_is_read_by_selector() {
    let html = "<form><input id=\"__VIEWSTATE\" value=\"vs9\"/>\
        <input id=\"__EVENTVALIDATION\" value=\"ev1\"/></form>";
    assert_eq!(
        israel_prices::adapters::first_scraped_attr(html, "#__VIEWSTATE", "value").unwrap(),
        "vs9"
    );
    assert_eq!(
        israel_prices::adapters::first_scraped_attr(html, "#__MISSING", "value").unwrap_err(),
        AdapterError::StructureMismatch
    );
}
