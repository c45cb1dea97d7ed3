//! Best-effort host information.  The host query itself exists only on
//! Windows and is not part of this build, so the queries here report that
//! they are unavailable; the mapping from a Windows timezone name to a
//! city name is the part with logic in it, and it is verified in full.

use vstd::prelude::*;
use crate::text::{chars_of, contains_seq, contains_str, matches_at, string_eq_str,
    string_from_chars};

verus! {

/// What the host reports of itself: a timezone name and a city name.
#[derive(Debug, Clone)]
pub struct SystemInfo {
    pub timezone: String,
    pub location: String,
}

/// `s` with every occurrence of `pat` removed, scanning left to right
/// without overlap, as `str::replace` with an empty replacement does it.
pub open spec fn remove_all(s: Seq<char>, pat: Seq<char>) -> Seq<char>
    decreases s.len(),
{
    if pat.len() == 0 || s.len() < pat.len() {
        s
    } else if s.subrange(0, pat.len() as int) == pat {
        remove_all(s.skip(pat.len() as int), pat)
    } else {
        seq![s[0]] + remove_all(s.drop_first(), pat)
    }
}

fn matches_here(s: &Vec<char>, pat: &Vec<char>, i: usize) -> (r: bool)
    requires
        i <= s.len(),
    ensures
        r == (i + pat@.len() <= s@.len() && matches_at(s@, pat@, i as int)),
{
    if pat.len() > s.len() - i {
        return false;
    }
    let mut j: usize = 0;
    while j < pat.len()
        invariant
            j <= pat.len(),
            i + pat.len() <= s.len(),
            forall|k: int| 0 <= k < j ==> s@[i + k] == pat@[k],
        decreases pat.len() - j,
    {
        if s[i + j] != pat[j] {
            proof {
                assert(s@.subrange(i as int, i + pat@.len())[j as int] == s@[i + j]);
            }
            return false;
        }
        j = j + 1;
    }
    proof {
        assert(s@.subrange(i as int, i + pat@.len()) =~= pat@);
    }
    true
}

/// Removes every occurrence of `pat` from `s`, left to right.
fn remove_all_x(s: &Vec<char>, pat: &Vec<char>) -> (r: Vec<char>)
    requires
        pat.len() > 0,
    ensures
        r@ == remove_all(s@, pat@),
{
    let mut out: Vec<char> = Vec::new();
    let mut i: usize = 0;
    proof {
        assert(s@.skip(0) =~= s@);
        assert(out@ + remove_all(s@.skip(0), pat@) =~= remove_all(s@, pat@));
    }
    while i < s.len()
        invariant
            i <= s.len(),
            pat@.len() > 0,
            remove_all(s@, pat@) == out@ + remove_all(s@.skip(i as int), pat@),
        decreases s.len() - i,
    {
        let ghost rem = s@.skip(i as int);
        if matches_here(s, pat, i) {
            proof {
                assert(rem.subrange(0, pat@.len() as int) =~= s@.subrange(
                    i as int,
                    i + pat@.len(),
                ));
                assert(rem.skip(pat@.len() as int) =~= s@.skip(i + pat@.len()));
            }
            i = i + pat.len();
        } else {
            proof {
                if i + pat@.len() <= s@.len() {
                    assert(rem.subrange(0, pat@.len() as int) =~= s@.subrange(
                        i as int,
                        i + pat@.len(),
                    ));
                }
                assert(rem.drop_first() =~= s@.skip(i + 1));
                assert(rem[0] == s@[i as int]);
                assert((out@ + seq![s@[i as int]]) + remove_all(s@.skip(i + 1), pat@) =~= out@ + (
                seq![s@[i as int]] + remove_all(s@.skip(i + 1), pat@)));
            }
            out.push(s[i]);
            i = i + 1;
        }
    }
    proof {
        assert(s@.skip(s@.len() as int) =~= Seq::<char>::empty());
        assert(out@ + remove_all(s@.skip(s@.len() as int), pat@) =~= out@);
    }
    out
}

/// The city name shown for a Windows timezone name: a fixed table of
/// eighteen names; any other name containing "Standard Time" is stripped
/// of its " Standard Time" and " Daylight Time" parts; anything else
/// passes through unchanged.
pub open spec fn windows_location_spec(tz: Seq<char>) -> Seq<char> {
    if tz == "Taipei Standard Time"@ {
        "Taipei"@
    } else if tz == "SE Asia Standard Time"@ {
        "Jakarta"@
    } else if tz == "Tokyo Standard Time"@ {
        "Tokyo"@
    } else if tz == "Singapore Standard Time"@ {
        "Singapore"@
    } else if tz == "Malay Peninsula Standard Time"@ {
        "Kuala Lumpur"@
    } else if tz == "Korea Standard Time"@ {
        "Seoul"@
    } else if tz == "China Standard Time"@ {
        "Hong Kong"@
    } else if tz == "Arabian Standard Time"@ {
        "Dubai"@
    } else if tz == "Arab Standard Time"@ {
        "Riyadh"@
    } else if tz == "Egypt Standard Time"@ {
        "Cairo"@
    } else if tz == "Turkey Standard Time"@ {
        "Istanbul"@
    } else if tz == "GMT Standard Time"@ {
        "London"@
    } else if tz == "Romance Standard Time"@ {
        "Paris"@
    } else if tz == "W. Europe Standard Time"@ {
        "Berlin"@
    } else if tz == "Eastern Standard Time"@ {
        "New York"@
    } else if tz == "Pacific Standard Time"@ {
        "Los Angeles"@
    } else if tz == "Central Standard Time"@ {
        "Chicago"@
    } else if tz == "AUS Eastern Standard Time"@ {
        "Sydney"@
    } else if contains_seq(tz, "Standard Time"@) {
        remove_all(remove_all(tz, " Standard Time"@), " Daylight Time"@)
    } else {
        tz
    }
}

/// Maps a Windows timezone name to the city name shown for it.
pub fn location_for_windows_timezone(tz: &String) -> (r: String)
    ensures
        r@ == windows_location_spec(tz@),
{
    if string_eq_str(tz, "Taipei Standard Time") {
        String::from_str("Taipei")
    } else if string_eq_str(tz, "SE Asia Standard Time") {
        String::from_str("Jakarta")
    } else if string_eq_str(tz, "Tokyo Standard Time") {
        String::from_str("Tokyo")
    } else if string_eq_str(tz, "Singapore Standard Time") {
        String::from_str("Singapore")
    } else if string_eq_str(tz, "Malay Peninsula Standard Time") {
        String::from_str("Kuala Lumpur")
    } else if string_eq_str(tz, "Korea Standard Time") {
        String::from_str("Seoul")
    } else if string_eq_str(tz, "China Standard Time") {
        String::from_str("Hong Kong")
    } else if string_eq_str(tz, "Arabian Standard Time") {
        String::from_str("Dubai")
    } else if string_eq_str(tz, "Arab Standard Time") {
        String::from_str("Riyadh")
    } else if string_eq_str(tz, "Egypt Standard Time") {
        String::from_str("Cairo")
    } else if string_eq_str(tz, "Turkey Standard Time") {
        String::from_str("Istanbul")
    } else if string_eq_str(tz, "GMT Standard Time") {
        String::from_str("London")
    } else if string_eq_str(tz, "Romance Standard Time") {
        String::from_str("Paris")
    } else if string_eq_str(tz, "W. Europe Standard Time") {
        String::from_str("Berlin")
    } else if string_eq_str(tz, "Eastern Standard Time") {
        String::from_str("New York")
    } else if string_eq_str(tz, "Pacific Standard Time") {
        String::from_str("Los Angeles")
    } else if string_eq_str(tz, "Central Standard Time") {
        String::from_str("Chicago")
    } else if string_eq_str(tz, "AUS Eastern Standard Time") {
        String::from_str("Sydney")
    } else {
        let cs = chars_of(tz.as_str());
        if contains_str(&cs, "Standard Time") {
            proof {
                reveal_strlit(" Standard Time");
                reveal_strlit(" Daylight Time");
            }
            let st = chars_of(" Standard Time");
            let dt = chars_of(" Daylight Time");
            let stripped = remove_all_x(&remove_all_x(&cs, &st), &dt);
            string_from_chars(&stripped)
        } else {
            tz.clone()
        }
    }
}

/// The host's timezone name.  The query exists only on Windows; this
/// build reports that it is unavailable.
pub fn get_windows_timezone() -> (r: Result<String, String>)
    ensures
        r matches Err(m) && m@ == "Windows timezone detection not available on this platform"@,
{
    Err(String::from_str("Windows timezone detection not available on this platform"))
}

/// The host's location, read off its timezone name.  With the timezone
/// query unavailable, this reports unavailability too; were a timezone
/// name at hand, it would map through `location_for_windows_timezone`.
pub fn get_windows_location() -> (r: Result<String, String>)
    ensures
        r matches Err(m) && m@ == "Windows location detection not available on this platform"@,
{
    match get_windows_timezone() {
        Ok(tzname) => Ok(location_for_windows_timezone(&tzname)),
        Err(_) => Err(String::from_str("Windows location detection not available on this platform")),
    }
}

/// The host information shown to the user: the timezone and location
/// queries, with "UTC" and "Unknown" standing in where a query is
/// unavailable.
pub fn get_system_info() -> (r: Result<SystemInfo, String>)
    ensures
        r matches Ok(si) && si.timezone@ == "UTC"@ && si.location@ == "Unknown"@,
{
    let timezone = match get_windows_timezone() {
        Ok(t) => t,
        Err(_) => String::from_str("UTC"),
    };
    let location = match get_windows_location() {
        Ok(l) => l,
        Err(_) => String::from_str("Unknown"),
    };
    Ok(SystemInfo { timezone, location })
}

} // verus!
