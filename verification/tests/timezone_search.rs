use chatgpt_timezone_launcher::timezone::{
    all_timezones, matching_timezones, validate_timezone, DEFAULT_TIMEZONE,
};

fn zones() -> Vec<String> {
    [
        "America/Indiana/Indianapolis",
        "America/New_York",
        "Asia/Shanghai",
        "Etc/UTC",
        "Pacific/Auckland",
    ]
    .into_iter()
    .map(str::to_string)
    .collect()
}

#[test]
fn search_matches_any_iana_segment_case_insensitively() {
    assert_eq!(
        matching_timezones(&zones(), "shANGhai"),
        vec!["Asia/Shanghai"]
    );
    assert_eq!(
        matching_timezones(&zones(), "new_york"),
        vec!["America/New_York"]
    );
}

#[test]
fn search_prioritizes_prefix_matches_before_inner_matches() {
    let zones = vec!["X/America".to_string(), "America/New_York".to_string()];
    assert_eq!(
        matching_timezones(&zones, "america"),
        vec!["America/New_York", "X/America"]
    );
}

#[test]
fn empty_search_shows_all_zones_and_control_characters_show_none() {
    let zones = zones();
    assert_eq!(matching_timezones(&zones, "  ").len(), zones.len());
    assert!(matching_timezones(&zones, "Asia\nShanghai").is_empty());
}

#[test]
fn search_trims_the_query_and_refuses_long_queries() {
    let zones = zones();
    assert_eq!(matching_timezones(&zones, "  utc \t"), vec!["Etc/UTC"]);
    assert!(matching_timezones(&zones, &"a".repeat(65)).is_empty());
    assert_eq!(
        matching_timezones(&zones, "america"),
        vec!["America/Indiana/Indianapolis", "America/New_York"]
    );
    assert_eq!(
        matching_timezones(&zones, "indiana"),
        vec!["America/Indiana/Indianapolis"]
    );
    assert!(matching_timezones(&zones, "tokyo").is_empty());
}

#[test]
fn every_search_result_holds_the_query() {
    let zones = zones();
    for query in ["a", "AN", "/", "ica/"] {
        for zone in matching_timezones(&zones, query) {
            assert!(zones.iter().any(|z| z == zone));
            assert!(zone.to_ascii_lowercase().contains(&query.to_ascii_lowercase()));
        }
    }
}

#[test]
fn all_timezones_are_sorted_and_each_validates() {
    let all = all_timezones();
    assert!(all.len() > 400);
    assert!(all.windows(2).all(|pair| pair[0] < pair[1]));
    assert!(all.iter().any(|zone| zone == DEFAULT_TIMEZONE));
    assert_eq!(validate_timezone(DEFAULT_TIMEZONE).unwrap(), "Etc/UTC");
    assert!(all.iter().any(|zone| zone == "Asia/Shanghai"));
    for zone in &all {
        assert_eq!(&validate_timezone(zone).unwrap(), zone);
    }
}
