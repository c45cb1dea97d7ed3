//! The shared configuration: the user's location, the enabled prayers,
//! the sound preference and the autostart flag, with a store that reads
//! and replaces the whole value at once.

use vstd::prelude::*;
use crate::text::strings_views;
use crate::timings::prayer_names_spec;

verus! {

/// The user's configuration, read at the start of every evaluation cycle
/// and written only by an explicit save.
#[derive(Debug)]
pub struct AppSettings {
    pub location: String,
    pub play_sound: bool,
    pub enabled_prayers: Vec<String>,
    pub run_at_startup: bool,
}

/// The mathematical content of the configuration.
pub ghost struct AppSettingsView {
    pub location: Seq<char>,
    pub play_sound: bool,
    pub enabled_prayers: Seq<Seq<char>>,
    pub run_at_startup: bool,
}

impl View for AppSettings {
    type V = AppSettingsView;

    open spec fn view(&self) -> AppSettingsView {
        AppSettingsView {
            location: self.location@,
            play_sound: self.play_sound,
            enabled_prayers: strings_views(self.enabled_prayers@),
            run_at_startup: self.run_at_startup,
        }
    }
}

/// The configuration used when none was stored yet: the fixed default
/// city, sound on, all five prayers enabled, no autostart.
pub open spec fn default_settings() -> AppSettingsView {
    AppSettingsView {
        location: "New Taipei City"@,
        play_sound: true,
        enabled_prayers: prayer_names_spec(),
        run_at_startup: false,
    }
}

impl Default for AppSettings {
    /// The default configuration, exactly `default_settings`.
    fn default() -> (r: Self)
        ensures
            r@ == default_settings(),
    {
        let enabled_prayers = vec![
            String::from_str("Fajr"),
            String::from_str("Dhuhr"),
            String::from_str("Asr"),
            String::from_str("Maghrib"),
            String::from_str("Isha"),
        ];
        proof {
            assert(strings_views(enabled_prayers@) =~= prayer_names_spec());
        }
        AppSettings {
            location: String::from_str("New Taipei City"),
            play_sound: true,
            enabled_prayers,
            run_at_startup: false,
        }
    }
}

/// A duplicate of a vector of strings, character for character.
fn clone_strings(v: &Vec<String>) -> (r: Vec<String>)
    ensures
        strings_views(r@) == strings_views(v@),
{
    let mut r: Vec<String> = Vec::new();
    let mut i: usize = 0;
    while i < v.len()
        invariant
            i <= v.len(),
            r@.len() == i,
            forall|k: int| 0 <= k < i ==> r@[k]@ == v@[k]@,
        decreases v.len() - i,
    {
        r.push(v[i].clone());
        i = i + 1;
    }
    proof {
        assert(strings_views(r@) =~= strings_views(v@));
    }
    r
}

impl Clone for AppSettings {
    /// A clone carries the same view: same location, same flags, the
    /// same enabled names.
    fn clone(&self) -> (r: Self)
        ensures
            r@ == self@,
    {
        AppSettings {
            location: self.location.clone(),
            play_sound: self.play_sound,
            enabled_prayers: clone_strings(&self.enabled_prayers),
            run_at_startup: self.run_at_startup,
        }
    }
}

/// The single process-wide settings holder.  A read hands out a snapshot
/// of the whole value; a save replaces the whole value; no partial-field
/// update exists, so no reader can ever see a mix of an old and a new
/// configuration.  The platform layer serializes access to the holder.
pub struct SettingsStore {
    current: AppSettings,
}

impl View for SettingsStore {
    type V = AppSettingsView;

    closed spec fn view(&self) -> AppSettingsView {
        self.current@
    }
}

impl SettingsStore {
    /// A store holding `initial`.
    pub fn new(initial: AppSettings) -> (s: Self)
        ensures
            s@ == initial@,
    {
        SettingsStore { current: initial }
    }

    /// A snapshot of the whole current configuration.
    pub fn get_settings(&self) -> (r: AppSettings)
        ensures
            r@ == self@,
    {
        self.current.clone()
    }

    /// Replaces the whole configuration by `settings`; afterwards the
    /// store holds exactly `settings`, every field of it.
    pub fn save_settings(&mut self, settings: AppSettings)
        ensures
            final(self)@ == settings@,
    {
        self.current = settings;
    }
}

} // verus!
