use pokedex_api::log::filter_log_matching_target;

#[test]
fn every_record_is_kept_without_a_filter() {
    assert!(filter_log_matching_target("pokedex_api::web", &None));
    assert!(filter_log_matching_target("", &None));
}

#[test]
fn records_are_kept_where_the_target_begins_with_the_filter() {
    let filter = Some("pokedex_api".to_string());
    assert!(filter_log_matching_target("pokedex_api", &filter));
    assert!(filter_log_matching_target("pokedex_api::web::routes", &filter));
    assert!(!filter_log_matching_target("hyper::proto", &filter));
    assert!(!filter_log_matching_target("pokedex", &filter));
    assert!(!filter_log_matching_target("my::pokedex_api", &filter));
    assert!(!filter_log_matching_target("Pokedex_api", &filter));
    assert!(!filter_log_matching_target("", &filter));
}

#[test]
fn empty_filter_keeps_every_record() {
    let filter = Some(String::new());
    assert!(filter_log_matching_target("hyper::proto", &filter));
    assert!(filter_log_matching_target("", &filter));
}
