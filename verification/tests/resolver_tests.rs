//! Resolution of location strings to IANA timezone identifiers.

use lets_pray::resolver::{get_timezone_for_location, resolve_with_offset};

#[test]
fn valid_identifier_is_returned_unchanged() {
    assert_eq!(get_timezone_for_location("Asia/Tokyo"), "Asia/Tokyo");
}

#[test]
fn valid_identifier_with_underscore_is_returned_unchanged() {
    assert_eq!(get_timezone_for_location("America/New_York"), "America/New_York");
}

#[test]
fn new_taipei_city_resolves_to_taipei() {
    assert_eq!(get_timezone_for_location("New Taipei City"), "Asia/Taipei");
}

#[test]
fn alias_match_is_case_insensitive() {
    assert_eq!(get_timezone_for_location("TAIPEI"), "Asia/Taipei");
    assert_eq!(get_timezone_for_location("ToKyO city"), "Asia/Tokyo");
}

#[test]
fn asian_aliases_resolve() {
    assert_eq!(get_timezone_for_location("Taiwan"), "Asia/Taipei");
    assert_eq!(get_timezone_for_location("Jakarta"), "Asia/Jakarta");
    assert_eq!(get_timezone_for_location("Tokyo"), "Asia/Tokyo");
    assert_eq!(get_timezone_for_location("singapore city"), "Asia/Singapore");
    assert_eq!(get_timezone_for_location("Kuala Lumpur"), "Asia/Kuala_Lumpur");
    assert_eq!(get_timezone_for_location("Bangkok"), "Asia/Bangkok");
    assert_eq!(get_timezone_for_location("Manila"), "Asia/Manila");
    assert_eq!(get_timezone_for_location("Seoul"), "Asia/Seoul");
    assert_eq!(get_timezone_for_location("hong kong"), "Asia/Hong_Kong");
}

#[test]
fn middle_east_and_africa_aliases_resolve() {
    assert_eq!(get_timezone_for_location("Dubai"), "Asia/Dubai");
    assert_eq!(get_timezone_for_location("Riyadh"), "Asia/Riyadh");
    assert_eq!(get_timezone_for_location("Cairo"), "Africa/Cairo");
    assert_eq!(get_timezone_for_location("Istanbul"), "Europe/Istanbul");
}

#[test]
fn european_aliases_resolve() {
    assert_eq!(get_timezone_for_location("London"), "Europe/London");
    assert_eq!(get_timezone_for_location("Paris"), "Europe/Paris");
    assert_eq!(get_timezone_for_location("Berlin"), "Europe/Berlin");
}

#[test]
fn american_aliases_resolve() {
    assert_eq!(get_timezone_for_location("New York"), "America/New_York");
    assert_eq!(get_timezone_for_location("Los Angeles"), "America/Los_Angeles");
    assert_eq!(get_timezone_for_location("Chicago"), "America/Chicago");
    assert_eq!(get_timezone_for_location("Toronto"), "America/Toronto");
}

#[test]
fn australian_aliases_resolve() {
    assert_eq!(get_timezone_for_location("Sydney"), "Australia/Sydney");
    assert_eq!(get_timezone_for_location("Melbourne"), "Australia/Melbourne");
}

#[test]
fn earlier_table_entries_win_over_later_substrings() {
    // "manila" also contains "la"; the Manila entry stands before the
    // Los Angeles one and must win.
    assert_eq!(get_timezone_for_location("manila"), "Asia/Manila");
    // "kuala lumpur" also contains "la"; its own entry is earlier.
    assert_eq!(get_timezone_for_location("kuala lumpur area"), "Asia/Kuala_Lumpur");
}

#[test]
fn fallback_maps_the_known_offsets_and_defaults_to_utc() {
    assert_eq!(resolve_with_offset("Qqqq Zzzz", 28800), "Asia/Taipei");
    assert_eq!(resolve_with_offset("Qqqq Zzzz", 25200), "Asia/Jakarta");
    assert_eq!(resolve_with_offset("Qqqq Zzzz", 32400), "Asia/Tokyo");
    assert_eq!(resolve_with_offset("Qqqq Zzzz", 0), "UTC");
    assert_eq!(resolve_with_offset("Qqqq Zzzz", 12345), "UTC");
    assert_eq!(resolve_with_offset("Qqqq Zzzz", -18000), "UTC");
}

#[test]
fn substring_aliases_apply_wherever_they_occur() {
    // The table matches substrings of the lowercased location, so the
    // two-letter "la" entry catches any name containing it that no
    // earlier entry claims, exactly as published.
    assert_eq!(get_timezone_for_location("Atlanta"), "America/Los_Angeles");
}

#[test]
fn every_resolved_identifier_parses_as_a_timezone() {
    let inputs = [
        "Asia/Tokyo", "New Taipei City", "Jakarta", "Kuala Lumpur", "hong kong", "Cairo",
        "Istanbul", "London", "New York", "Toronto", "Melbourne", "Atlanta", "Qqqq Zzzz",
    ];
    for location in inputs {
        let tz = get_timezone_for_location(location);
        assert!(
            tz.parse::<chrono_tz::Tz>().is_ok(),
            "resolved identifier does not parse: {}",
            tz
        );
    }
    for offset in [28800, 25200, 32400, 0, 12345] {
        let tz = resolve_with_offset("Qqqq Zzzz", offset);
        assert!(tz.parse::<chrono_tz::Tz>().is_ok());
    }
}

#[test]
fn unmatched_location_falls_back_to_a_known_offset_zone() {
    let tz = get_timezone_for_location("Qqqq Zzzz");
    assert!(
        tz == "Asia/Taipei" || tz == "Asia/Jakarta" || tz == "Asia/Tokyo" || tz == "UTC",
        "unexpected fallback: {}",
        tz
    );
}
