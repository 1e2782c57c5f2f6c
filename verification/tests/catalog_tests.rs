use wallchemybar::catalog::{
    api_key_header, collection_wallpapers_url, collections_url, retry_search_params,
    search_params, search_response_action, search_url, should_retry_without_key, status_outcome,
    wallpaper_info_url, Collection, SearchResponseAction, Tag, WallpaperInfo,
};
use wallchemybar::strutil::{
    extension_part, filename_part, str_eq, to_lowercase_ascii, trim_spaces, u32_to_string,
    u64_to_string,
};

#[test]
fn search_params_carry_the_four_base_parameters_in_order() {
    let params = search_params("toplist", "100", "111", "", None, "");
    let pairs: Vec<(&str, &str)> =
        params.iter().map(|p| (p.key.as_str(), p.value.as_str())).collect();
    assert_eq!(
        pairs,
        vec![("sorting", "toplist"), ("purity", "100"), ("categories", "111"), ("page", "1")]
    );
}

#[test]
fn search_params_append_query_and_atleast_only_when_set() {
    let params = search_params("relevance", "110", "101", "2560x1440", Some(3), "city night");
    let pairs: Vec<(&str, &str)> =
        params.iter().map(|p| (p.key.as_str(), p.value.as_str())).collect();
    assert_eq!(
        pairs,
        vec![
            ("sorting", "relevance"),
            ("purity", "110"),
            ("categories", "101"),
            ("page", "3"),
            ("q", "city night"),
            ("atleast", "2560x1440"),
        ]
    );
}

#[test]
fn retry_after_unauthorized_resets_purity_and_keeps_the_rest() {
    let params = retry_search_params("toplist", "101", "1920x1080", Some(2), "forest");
    let pairs: Vec<(&str, &str)> =
        params.iter().map(|p| (p.key.as_str(), p.value.as_str())).collect();
    assert_eq!(
        pairs,
        vec![
            ("sorting", "toplist"),
            ("purity", "100"),
            ("categories", "101"),
            ("page", "2"),
            ("q", "forest"),
            ("atleast", "1920x1080"),
        ]
    );
}

#[test]
fn api_key_header_attaches_only_a_nonblank_key_trimmed() {
    assert_eq!(api_key_header("  SECRET-REDACTED  ").unwrap(), "SECRET-REDACTED");
    assert!(api_key_header("").is_none());
    assert!(api_key_header("   ").is_none());
}

#[test]
fn unauthorized_search_with_key_is_retried_without_it() {
    assert!(should_retry_without_key(401, "SECRET-REDACTED"));
    assert!(!should_retry_without_key(401, "  "));
    assert!(!should_retry_without_key(403, "SECRET-REDACTED"));
    assert!(!should_retry_without_key(200, "SECRET-REDACTED"));
}

#[test]
fn search_response_action_retries_fails_or_parses() {
    assert!(matches!(
        search_response_action(401, "SECRET-REDACTED"),
        SearchResponseAction::RetryWithoutKey
    ));
    match search_response_action(401, "") {
        SearchResponseAction::Fail { error } => assert_eq!(error, "API error: status 401"),
        _ => panic!("wrong action"),
    }
    assert!(matches!(search_response_action(200, "SECRET-REDACTED"), SearchResponseAction::ParseBody));
    match search_response_action(500, "SECRET-REDACTED") {
        SearchResponseAction::Fail { error } => assert_eq!(error, "API error: status 500"),
        _ => panic!("wrong action"),
    }
}

#[test]
fn catalog_records_hold_their_fields() {
    let c = Collection {
        id: 9,
        label: String::from("Nature"),
        views: 100,
        public: 1,
        count: 24,
    };
    assert_eq!(c.label, "Nature");
    let info = WallpaperInfo { tags: vec![Tag { id: 3, name: String::from("mountain") }] };
    assert_eq!(info.tags[0].name, "mountain");
    assert_eq!(info.tags[0].id, 3);
}

#[test]
fn non_success_status_is_the_error_naming_it() {
    assert!(status_outcome(200).is_ok());
    assert!(status_outcome(299).is_ok());
    assert_eq!(status_outcome(404).unwrap_err(), "API error: status 404");
    assert_eq!(status_outcome(199).unwrap_err(), "API error: status 199");
}

#[test]
fn collections_url_requires_a_configured_username() {
    assert_eq!(
        collections_url("  ").unwrap_err(),
        "Username not configured. Set it in Settings."
    );
    assert_eq!(
        collections_url(" ada ").unwrap(),
        "https://wallhaven.cc/api/v1/collections/ada"
    );
}

#[test]
fn collection_wallpapers_url_names_user_and_collection() {
    assert_eq!(
        collection_wallpapers_url("ada", 42).unwrap(),
        "https://wallhaven.cc/api/v1/collections/ada/42"
    );
    assert_eq!(
        collection_wallpapers_url("", 42).unwrap_err(),
        "Username not configured. Set it in Settings."
    );
}

#[test]
fn wallpaper_info_url_names_the_wallpaper() {
    assert_eq!(wallpaper_info_url("ab12cd"), "https://wallhaven.cc/api/v1/w/ab12cd");
    assert_eq!(search_url(), "https://wallhaven.cc/api/v1/search");
}

#[test]
fn filename_part_takes_the_last_slash_segment() {
    assert_eq!(filename_part("https://img.example/full/ab12cd.jpg"), "ab12cd.jpg");
    assert_eq!(filename_part("plain.png"), "plain.png");
    assert_eq!(filename_part("dir/"), "");
}

#[test]
fn extension_part_takes_what_follows_the_last_dot() {
    assert_eq!(extension_part("a.tar.gz"), "gz");
    assert_eq!(extension_part("noext"), "");
    assert_eq!(extension_part(".hidden"), "");
    assert_eq!(extension_part("trailing."), "");
}

#[test]
fn ascii_case_folding_leaves_other_characters_alone() {
    assert_eq!(to_lowercase_ascii("JPeG"), "jpeg");
    assert_eq!(to_lowercase_ascii("már-9_Z"), "már-9_z");
    assert_eq!(to_lowercase_ascii(""), "");
}

#[test]
fn decimal_rendering_matches_the_usual_notation() {
    assert_eq!(u64_to_string(0), "0");
    assert_eq!(u64_to_string(7), "7");
    assert_eq!(u64_to_string(105), "105");
    assert_eq!(u64_to_string(u64::MAX), "18446744073709551615");
    assert_eq!(u32_to_string(4294967295), "4294967295");
}

#[test]
fn trimming_strips_blanks_at_both_ends_only() {
    assert_eq!(trim_spaces("  a b \t\n"), "a b");
    assert_eq!(trim_spaces("ab"), "ab");
    assert_eq!(trim_spaces(" \t "), "");
}

#[test]
fn string_comparison_goes_by_characters() {
    assert!(str_eq("abc", "abc"));
    assert!(!str_eq("abc", "abd"));
    assert!(!str_eq("abc", "ab"));
}
