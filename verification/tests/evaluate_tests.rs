//! The reminder evaluator, the cycle driver, the settings store and the
//! host-information helpers.

use lets_pray::evaluate::{evaluate, run_cycle, CycleOutcome};
use lets_pray::settings::{AppSettings, SettingsStore};
use lets_pray::system::{
    get_system_info, get_windows_location, get_windows_timezone, location_for_windows_timezone,
};
use lets_pray::timings::prayer_times_from_body;

fn body_with_timings(timings: &str) -> String {
    format!(
        "{{\"data\":{{\"timings\":{},\"date\":{{\"readable\":\"15 Mar 2026\",\"timestamp\":\"1773532800\"}}}}}}",
        timings
    )
}

fn full_body() -> String {
    body_with_timings(
        "{\"Fajr\":\"05:03\",\"Dhuhr\":\"12:10\",\"Asr\":\"15:30\",\"Maghrib\":\"18:05\",\"Isha\":\"19:20\"}",
    )
}

fn names(list: &[&str]) -> Vec<String> {
    list.iter().map(|s| s.to_string()).collect()
}

#[test]
fn reminder_fires_inside_the_window_with_the_documented_texts() {
    let times =
        prayer_times_from_body(&full_body(), "Asia/Taipei", 2026, 3, 15).unwrap();
    let maghrib = times.iter().find(|p| p.name == "Maghrib").unwrap().datetime;
    let events = evaluate(maghrib - 10, &times, &names(&["Maghrib"]), true);
    assert_eq!(events.len(), 1);
    assert_eq!(events[0].title, "Prayer Time: Maghrib");
    assert_eq!(events[0].body, "It's time for Maghrib prayer at 18:05");
    assert!(events[0].should_play_sound);
}

#[test]
fn window_missed_by_one_second_yields_no_event() {
    let times =
        prayer_times_from_body(&full_body(), "Asia/Taipei", 2026, 3, 15).unwrap();
    let asr = times.iter().find(|p| p.name == "Asr").unwrap().datetime;
    let events = evaluate(asr + 61, &times, &names(&["Asr"]), true);
    assert_eq!(events.len(), 0);
}

#[test]
fn window_boundaries_are_inclusive_at_now_and_exclusive_at_sixty() {
    let times =
        prayer_times_from_body(&full_body(), "Asia/Taipei", 2026, 3, 15).unwrap();
    let asr = times.iter().find(|p| p.name == "Asr").unwrap().datetime;
    let enabled = names(&["Asr"]);
    assert_eq!(evaluate(asr, &times, &enabled, true).len(), 1);
    assert_eq!(evaluate(asr - 59, &times, &enabled, true).len(), 1);
    assert_eq!(evaluate(asr - 60, &times, &enabled, true).len(), 0);
    assert_eq!(evaluate(asr + 1, &times, &enabled, true).len(), 0);
}

#[test]
fn disabled_prayers_never_fire() {
    let times =
        prayer_times_from_body(&full_body(), "Asia/Taipei", 2026, 3, 15).unwrap();
    let maghrib = times.iter().find(|p| p.name == "Maghrib").unwrap().datetime;
    let events = evaluate(maghrib, &times, &names(&["Fajr", "Isha"]), true);
    assert_eq!(events.len(), 0);
}

#[test]
fn empty_enabled_set_yields_no_events_whatever_the_instants() {
    let times =
        prayer_times_from_body(&full_body(), "Asia/Taipei", 2026, 3, 15).unwrap();
    let empty: Vec<String> = Vec::new();
    for p in &times {
        assert_eq!(evaluate(p.datetime, &times, &empty, true).len(), 0);
    }
}

#[test]
fn sound_preference_is_carried_on_the_event() {
    let times =
        prayer_times_from_body(&full_body(), "Asia/Taipei", 2026, 3, 15).unwrap();
    let fajr = times.iter().find(|p| p.name == "Fajr").unwrap().datetime;
    let silent = evaluate(fajr, &times, &names(&["Fajr"]), false);
    assert_eq!(silent.len(), 1);
    assert!(!silent[0].should_play_sound);
}

#[test]
fn cycle_fires_exactly_the_qualifying_reminder() {
    let settings = AppSettings {
        location: "New Taipei City".to_string(),
        play_sound: true,
        enabled_prayers: names(&["Maghrib"]),
        run_at_startup: false,
    };
    let times =
        prayer_times_from_body(&full_body(), "Asia/Taipei", 2026, 3, 15).unwrap();
    let maghrib = times.iter().find(|p| p.name == "Maghrib").unwrap().datetime;
    let outcome = run_cycle(
        Ok(full_body()),
        "Asia/Taipei",
        2026,
        3,
        15,
        maghrib - 10,
        &settings,
    );
    match outcome {
        CycleOutcome::Fired(events) => {
            assert_eq!(events.len(), 1);
            assert!(events[0].body.contains("18:05"));
        }
        other => panic!("expected a fired cycle, got {:?}", other),
    }
}

#[test]
fn cycle_with_malformed_body_is_skipped_not_fatal() {
    let settings = AppSettings::default();
    let outcome = run_cycle(
        Ok("<html>oops</html>".to_string()),
        "Asia/Taipei",
        2026,
        3,
        15,
        0,
        &settings,
    );
    assert!(matches!(
        outcome,
        CycleOutcome::Skipped(lets_pray::timings::PrayerFetchError::Parse)
    ));
}

#[test]
fn cycle_with_transport_failure_carries_the_cause() {
    let settings = AppSettings::default();
    let outcome = run_cycle(
        Err("connection refused".to_string()),
        "Asia/Taipei",
        2026,
        3,
        15,
        0,
        &settings,
    );
    match outcome {
        CycleOutcome::Skipped(lets_pray::timings::PrayerFetchError::Fetch(msg)) => {
            assert_eq!(msg, "connection refused");
        }
        other => panic!("expected a skipped cycle, got {:?}", other),
    }
}

#[test]
fn default_settings_enable_everything_at_the_default_city() {
    let s = AppSettings::default();
    assert_eq!(s.location, "New Taipei City");
    assert!(s.play_sound);
    assert_eq!(s.enabled_prayers, names(&["Fajr", "Dhuhr", "Asr", "Maghrib", "Isha"]));
    assert!(!s.run_at_startup);
}

#[test]
fn saved_settings_are_read_back_whole() {
    let mut store = SettingsStore::new(AppSettings::default());
    let replacement = AppSettings {
        location: "Cairo".to_string(),
        play_sound: false,
        enabled_prayers: names(&["Fajr"]),
        run_at_startup: true,
    };
    store.save_settings(replacement);
    let seen = store.get_settings();
    assert_eq!(seen.location, "Cairo");
    assert!(!seen.play_sound);
    assert_eq!(seen.enabled_prayers, names(&["Fajr"]));
    assert!(seen.run_at_startup);
}

#[test]
fn settings_clone_is_field_for_field_equal() {
    let s = AppSettings::default();
    let c = s.clone();
    assert_eq!(c.location, s.location);
    assert_eq!(c.play_sound, s.play_sound);
    assert_eq!(c.enabled_prayers, s.enabled_prayers);
    assert_eq!(c.run_at_startup, s.run_at_startup);
}

#[test]
fn windows_timezone_names_map_to_cities() {
    assert_eq!(location_for_windows_timezone(&"Taipei Standard Time".to_string()), "Taipei");
    assert_eq!(location_for_windows_timezone(&"SE Asia Standard Time".to_string()), "Jakarta");
    assert_eq!(location_for_windows_timezone(&"GMT Standard Time".to_string()), "London");
    assert_eq!(
        location_for_windows_timezone(&"AUS Eastern Standard Time".to_string()),
        "Sydney"
    );
}

#[test]
fn unlisted_windows_name_is_stripped_of_its_suffixes() {
    assert_eq!(
        location_for_windows_timezone(&"Newfoundland Standard Time".to_string()),
        "Newfoundland"
    );
    assert_eq!(
        location_for_windows_timezone(&"Cen. Australia Standard Time".to_string()),
        "Cen. Australia"
    );
    assert_eq!(
        location_for_windows_timezone(&"X Standard Time Y Daylight Time".to_string()),
        "X Y"
    );
    assert_eq!(location_for_windows_timezone(&"Foobar Time".to_string()), "Foobar Time");
}

#[test]
fn host_queries_report_unavailability_on_this_build() {
    assert!(get_windows_timezone().is_err());
    assert!(get_windows_location().is_err());
    let info = get_system_info().unwrap();
    assert_eq!(info.timezone, "UTC");
    assert_eq!(info.location, "Unknown");
}
