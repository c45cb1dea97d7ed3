//! Parsing of timings responses, anchoring of wall-clock times, and the
//! request URL.

use std::str::FromStr;

use chrono::{TimeZone, Timelike};
use lets_pray::request::{build_request_url, request_for_date, todays_request};
use lets_pray::timings::{prayer_times_from_body, PrayerFetchError};

fn body_with_timings(timings: &str) -> String {
    format!(
        "{{\"data\":{{\"timings\":{},\"date\":{{\"readable\":\"15 Mar 2026\",\"timestamp\":\"1773532800\"}}}}}}",
        timings
    )
}

#[test]
fn present_prayers_come_back_in_fixed_order_with_their_times() {
    let body = body_with_timings(
        "{\"Isha\":\"19:20\",\"Fajr\":\"05:03\",\"Sunrise\":\"06:20\"}",
    );
    let times = prayer_times_from_body(&body, "Asia/Taipei", 2026, 3, 15).unwrap();
    assert_eq!(times.len(), 2);
    assert_eq!(times[0].name, "Fajr");
    assert_eq!(times[0].time, "05:03");
    assert_eq!(times[1].name, "Isha");
    assert_eq!(times[1].time, "19:20");
}

#[test]
fn anchored_instant_reads_back_as_the_original_time() {
    let body = body_with_timings("{\"Fajr\":\"05:03\",\"Maghrib\":\"18:05\"}");
    let times = prayer_times_from_body(&body, "Asia/Taipei", 2026, 3, 15).unwrap();
    let tz = chrono_tz::Tz::from_str("Asia/Taipei").unwrap();
    for pt in &times {
        let back = tz.timestamp_opt(pt.datetime, 0).single().unwrap();
        let shown = format!("{:02}:{:02}", back.hour(), back.minute());
        assert_eq!(shown, pt.time);
    }
}

#[test]
fn anchoring_uses_the_resolved_timezone_not_the_host() {
    let body = body_with_timings("{\"Fajr\":\"05:03\"}");
    let times = prayer_times_from_body(&body, "Asia/Taipei", 2026, 3, 15).unwrap();
    // 05:03 on 2026-03-15 in Taipei (UTC+8) is 21:03 UTC the day before.
    let expected = chrono::NaiveDate::from_ymd_opt(2026, 3, 14)
        .unwrap()
        .and_hms_opt(21, 3, 0)
        .unwrap()
        .and_utc()
        .timestamp();
    assert_eq!(times[0].datetime, expected);
}

#[test]
fn single_digit_components_parse_and_out_of_grammar_times_are_skipped() {
    let body = body_with_timings(
        "{\"Fajr\":\"5:3\",\"Dhuhr\":\"99:99\",\"Asr\":\"0503\",\"Maghrib\":\"18:05\"}",
    );
    let times = prayer_times_from_body(&body, "Asia/Taipei", 2026, 3, 15).unwrap();
    assert_eq!(times.len(), 2);
    assert_eq!(times[0].name, "Fajr");
    let tz = chrono_tz::Tz::from_str("Asia/Taipei").unwrap();
    let back = tz.timestamp_opt(times[0].datetime, 0).single().unwrap();
    assert_eq!((back.hour(), back.minute()), (5, 3));
    assert_eq!(times[1].name, "Maghrib");
}

#[test]
fn malformed_body_is_a_parse_error() {
    let r = prayer_times_from_body("this is not json", "Asia/Taipei", 2026, 3, 15);
    assert!(matches!(r, Err(PrayerFetchError::Parse)));
}

#[test]
fn body_without_date_block_is_a_parse_error() {
    let body = "{\"data\":{\"timings\":{\"Fajr\":\"05:03\"}}}";
    let r = prayer_times_from_body(body, "Asia/Taipei", 2026, 3, 15);
    assert!(matches!(r, Err(PrayerFetchError::Parse)));
}

#[test]
fn non_string_timing_value_is_a_parse_error() {
    let body = body_with_timings("{\"Fajr\":503}");
    let r = prayer_times_from_body(&body, "Asia/Taipei", 2026, 3, 15);
    assert!(matches!(r, Err(PrayerFetchError::Parse)));
}

#[test]
fn unknown_timezone_is_an_invalid_timezone_error() {
    let body = body_with_timings("{\"Fajr\":\"05:03\"}");
    let r = prayer_times_from_body(&body, "Not/AZone", 2026, 3, 15);
    match r {
        Err(PrayerFetchError::InvalidTimezone(t)) => assert_eq!(t, "Not/AZone"),
        other => panic!("expected an invalid-timezone error, got {:?}", other),
    }
}

#[test]
fn nonexistent_local_time_fails_the_day_naming_the_prayer() {
    // 2026-03-08 02:30 does not exist in America/New_York: the clock
    // jumps from 02:00 to 03:00 that night.
    let body = body_with_timings("{\"Fajr\":\"02:30\",\"Dhuhr\":\"12:10\"}");
    let r = prayer_times_from_body(&body, "America/New_York", 2026, 3, 8);
    match r {
        Err(PrayerFetchError::Timezone(name)) => assert_eq!(name, "Fajr"),
        other => panic!("expected a timezone error, got {:?}", other),
    }
}

#[test]
fn extra_response_fields_are_ignored() {
    let body = format!(
        "{{\"code\":200,\"status\":\"OK\",\"data\":{{\"meta\":{{\"school\":0}},\"timings\":{},\"date\":{{\"readable\":\"x\",\"timestamp\":\"1\",\"hijri\":{{}}}}}}}}",
        "{\"Dhuhr\":\"12:10\"}"
    );
    let times = prayer_times_from_body(&body, "Asia/Taipei", 2026, 3, 15).unwrap();
    assert_eq!(times.len(), 1);
    assert_eq!(times[0].name, "Dhuhr");
}

#[test]
fn request_url_is_built_exactly() {
    let url = build_request_url("New Taipei City", "Asia/Taipei", 2026, 3, 5);
    assert_eq!(
        url,
        "https://api.aladhan.com/v1/timingsByAddress/05-03-2026?address=New%20Taipei%20City&method=3&shafaq=general&tune=5%2C3%2C5%2C7%2C9%2C-1%2C0%2C8%2C-6&timezonestring=Asia%2FTaipei&calendarMethod=UAQ"
    );
}

#[test]
fn request_exists_exactly_for_four_digit_years() {
    let req = request_for_date("Asia/Tokyo", 2026, 3, 15).unwrap();
    assert_eq!(req.year, 2026);
    assert_eq!(req.month, 3);
    assert_eq!(req.day, 15);
    assert_eq!(req.timezone, "Asia/Tokyo");
    assert!(req.url.contains("/15-03-2026?"));
    assert!(request_for_date("Asia/Tokyo", -5, 3, 15).is_none());
    assert!(request_for_date("Asia/Tokyo", 10000, 3, 15).is_none());
    assert!(request_for_date("Asia/Tokyo", 0, 3, 15).is_some());
    assert!(request_for_date("Asia/Tokyo", 9999, 3, 15).is_some());
}

#[test]
fn todays_request_carries_the_resolved_timezone() {
    let req = todays_request("Asia/Tokyo").unwrap();
    assert_eq!(req.timezone, "Asia/Tokyo");
    assert!(req.url.starts_with("https://api.aladhan.com/v1/timingsByAddress/"));
    assert!(req.url.contains("&timezonestring=Asia%2FTokyo"));
    assert!((1..=12).contains(&req.month));
    assert!((1..=31).contains(&req.day));
}
