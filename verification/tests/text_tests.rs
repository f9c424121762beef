use israel_prices::counter::longest;
use israel_prices::country_code::to_country_code;
use israel_prices::counter::Counter;
use israel_prices::counter::CounterError;
use israel_prices::models::validate_chain;
use israel_prices::models::Chain;
use israel_prices::models::Item;
use israel_prices::models::Store as ChainStore;
use israel_prices::models::Subchain;
use israel_prices::models::ItemKey;
use israel_prices::nutrition::NutritionType;
use israel_prices::nutrition::NutritionalValue;
use israel_prices::nutrition::Unit;
use israel_prices::sanitization::sanitize_name;
use israel_prices::strutil::parse_u64_digits;
use israel_prices::strutil::str_lt;
use israel_prices::strutil::u64_to_string;

#[test]
fn sanitize_sheds_wrapping_quotes() {
    assert_eq!(sanitize_name("\"חלב תנובה\""), "חלב תנובה");
}

#[test]
fn sanitize_sheds_lone_quote_and_apostrophe() {
    assert_eq!(sanitize_name("\"שוקו"), "שוקו");
    assert_eq!(sanitize_name("'גבינה"), "גבינה");
}

#[test]
fn sanitize_sheds_bangs_and_markers() {
    assert_eq!(sanitize_name("לחם!!"), "לחם");
    assert_eq!(sanitize_name("*מבצע* קפה"), "קפה");
    assert_eq!(sanitize_name("*חדש"), "חדש");
}

#[test]
fn sanitize_rewrites_doubled_quotes() {
    assert_eq!(
        sanitize_name("ab\"\"cd"),
        "ab\u{05bf}\u{05bf}\u{05bf}\u{05bf}\"cd"
    );
}

#[test]
fn sanitize_trims_whitespace() {
    assert_eq!(sanitize_name("  מים  "), "מים");
    assert_eq!(sanitize_name(""), "");
}

#[test]
fn units_parse_and_print() {
    assert_eq!(Unit::from_str("גרם").str(), "g");
    assert_eq!(Unit::from_str("קלוריות").str(), "kcal");
    assert_eq!(Unit::from_str("מקג").str(), "µg");
    assert_eq!(Unit::from_str("%").str(), "%");
    assert_eq!(Unit::from_str("weird").str(), "weird");
}

#[test]
fn nutrition_types_parse_and_print() {
    assert_eq!(NutritionType::from_str("חלבונים").str(), "Protein");
    assert_eq!(NutritionType::from_str("אנרגיה").str(), "Energy");
    assert_eq!(NutritionType::from_str("B12 ויטמין").str(), "B12");
    // the ordered table tries B1 first, so the other spelling lands there
    assert_eq!(NutritionType::from_str("ויטמין B12").str(), "B1");
    assert_eq!(NutritionType::from_str("xyz").str(), "xyz");
}

#[test]
fn nutrition_value_from_scraped_texts() {
    let v = NutritionalValue::new(
        "5".to_string(),
        "קלוריותn".to_string(),
        "אנרגיה (קלוריות)".to_string(),
    )
    .unwrap();
    let t = v.to_tuple();
    assert_eq!(t, ("5".to_string(), "kcal".to_string(), "Energy".to_string()));
}

#[test]
fn sugar_teaspoons_need_no_unit() {
    let v = NutritionalValue::new(
        "3".to_string(),
        "".to_string(),
        "כפיות סוכר".to_string(),
    )
    .unwrap();
    let t = v.to_tuple();
    assert_eq!(t.1, "teaspoon");
    assert_eq!(t.2, "Sugar");
    assert!(!v.less_than);
}

#[test]
fn empty_parts_yield_no_value() {
    assert!(NutritionalValue::new("".to_string(), "גרם".to_string(), "חלבונים".to_string())
        .is_none());
    assert!(NutritionalValue::new("1".to_string(), "".to_string(), "חלבונים".to_string())
        .is_none());
}

#[test]
fn create_attaches_the_less_than_marker() {
    let v = NutritionalValue::create(
        "1".to_string(),
        "גרם".to_string(),
        "שומנים".to_string(),
        true,
    )
    .unwrap();
    assert!(v.less_than);
}

#[test]
fn counter_tracks_the_most_common_key() {
    let mut c: Counter<String> = Counter::new();
    c.inc("aa".to_string());
    c.inc("b".to_string());
    c.inc("aa".to_string());
    assert_eq!(c.most_common().unwrap(), "aa");
    assert_eq!(c.values().len(), 2);
}

#[test]
fn counter_longest_returns_the_shortest_stored_key() {
    // The name is historical: the selection takes the minimal length, as the
    // aggregation stage always has.
    let mut c: Counter<String> = Counter::new();
    c.inc("aaaa".to_string());
    c.inc("bb".to_string());
    c.inc("cccc".to_string());
    assert_eq!(longest(&c).unwrap(), "bb");
}

#[test]
fn empty_counter_has_no_best_key() {
    let c: Counter<String> = Counter::new();
    assert_eq!(c.most_common().unwrap_err(), CounterError::Empty);
    assert_eq!(longest(&c).unwrap_err(), CounterError::Empty);
}

#[test]
fn counter_over_bools() {
    let mut c: Counter<bool> = Counter::new();
    c.inc(true);
    c.inc(false);
    c.inc(true);
    assert_eq!(c.most_common().unwrap(), &true);
}

#[test]
fn item_keys_scope_internal_codes_to_their_chain() {
    let mut item = Item::default();
    item.item_code = 42;
    item.internal_code = true;
    let key = ItemKey::from_item_and_chain(&item, 7);
    assert_eq!(key, ItemKey { item_code: 42, chain_id: Some(7) });
    item.internal_code = false;
    let key = ItemKey::from_item_and_chain(&item, 7);
    assert_eq!(key, ItemKey { item_code: 42, chain_id: None });
}

#[test]
fn digit_strings_parse_exactly() {
    assert_eq!(parse_u64_digits("123"), Some(123));
    assert_eq!(parse_u64_digits("0"), Some(0));
    assert_eq!(parse_u64_digits(""), None);
    assert_eq!(parse_u64_digits("12a"), None);
    assert_eq!(parse_u64_digits("-5"), None);
    assert_eq!(parse_u64_digits("99999999999999999999"), None);
    assert_eq!(u64_to_string(0), "0");
    assert_eq!(u64_to_string(90210), "90210");
}

#[test]
fn timestamps_order_lexicographically() {
    assert!(str_lt("202301010000", "202301020000"));
    assert!(!str_lt("202301020000", "202301010000"));
    assert!(!str_lt("20230101", "20230101"));
    assert!(str_lt("2023", "20230101"));
}

#[test]
fn country_names_map_to_codes() {
    assert_eq!(to_country_code("ישראל"), Some("IL"));
    assert_eq!(to_country_code("סין"), Some("CN"));
    assert_eq!(to_country_code("China"), Some("CN"));
    assert_eq!(to_country_code("גרמניה"), Some("DE"));
    assert_eq!(to_country_code("ארה\"ב"), Some("US"));
    assert_eq!(to_country_code("atlantis"), None);
}

#[test]
fn chain_validation_checks_ids_and_subchains() {
    let mut chain = Chain::default();
    assert!(!validate_chain(&chain));
    chain.chain_id = 7290058179875;
    let mut sub = Subchain::default();
    sub.stores.push(ChainStore { store_id: 1, ..ChainStore::default() });
    chain.subchains.push(sub);
    assert!(validate_chain(&chain));
    chain.subchains[0].stores.push(ChainStore::default());
    assert!(!validate_chain(&chain));
}
