//! The request for one day of timings: the date path segment and the
//! query string, built exactly as the external timings service expects
//! them (fixed method, tuning vector and calendar convention).

use vstd::prelude::*;
use chrono::Datelike;
use crate::resolver::{alias_timezone, get_timezone_for_location, is_iana_tz, resolve_spec};
use crate::text::{append_two_digits, append_four_digits, four_digits_seq, lower_seq,
    two_digits_seq};
use crate::timings::valid_date;

verus! {

/// What `urlencoding::encode` returns for a string: every byte of the
/// UTF-8 form percent-encoded except alphanumerics and `-`, `_`, `.`,
/// `~`.  A fixed function of the string alone.
pub uninterp spec fn percent_encoded(s: Seq<char>) -> Seq<char>;

/// Whether a character is left as itself by the percent encoding.
pub open spec fn is_unreserved(c: char) -> bool {
    ||| 48 <= c as u32 && c as u32 <= 57
    ||| 65 <= c as u32 && c as u32 <= 90
    ||| 97 <= c as u32 && c as u32 <= 122
    ||| c == '-'
    ||| c == '_'
    ||| c == '.'
    ||| c == '~'
}

/// Relies on `urlencoding::encode`: percent-encodes every byte except
/// alphanumerics and `-`, `_`, `.`, `~`, so a string of unreserved
/// characters passes through unchanged.
#[verifier::external_body]
fn percent_encode(s: &str) -> (r: String)
    ensures
        r@ == percent_encoded(s@),
        (forall|i: int| 0 <= i < s@.len() ==> is_unreserved(s@[i])) ==> r@ == s@,
{
    urlencoding::encode(s).into_owned()
}

/// The date path segment `DD-MM-YYYY` of the request.
pub open spec fn date_path_seq(y: int, m: int, d: int) -> Seq<char> {
    two_digits_seq(d) + "-"@ + two_digits_seq(m) + "-"@ + four_digits_seq(y)
}

/// The whole request URL for one day of timings at a location and a
/// resolved timezone.  The query carries the fixed contract with the
/// service: method 3, shafaq general, the fixed nine-value tuning vector,
/// and the Umm al-Qura calendar convention.
pub open spec fn request_url_spec(loc: Seq<char>, tz: Seq<char>, y: int, m: int, d: int) -> Seq<
    char,
> {
    "https://api.aladhan.com/v1/timingsByAddress/"@ + date_path_seq(y, m, d) + "?address="@
        + percent_encoded(loc) + "&method=3&shafaq=general&tune=5%2C3%2C5%2C7%2C9%2C-1%2C0%2C8%2C-6&timezonestring="@
        + percent_encoded(tz) + "&calendarMethod=UAQ"@
}

/// Builds the request URL for `location` and the resolved timezone `tz`
/// on the calendar date `y`-`m`-`d`.
pub fn build_request_url(location: &str, tz: &str, y: u32, m: u32, d: u32) -> (r: String)
    requires
        y < 10000,
        m < 100,
        d < 100,
    ensures
        r@ == request_url_spec(location@, tz@, y as int, m as int, d as int),
{
    let mut url = String::new();
    url.append("https://api.aladhan.com/v1/timingsByAddress/");
    append_two_digits(&mut url, d);
    url.append("-");
    append_two_digits(&mut url, m);
    url.append("-");
    append_four_digits(&mut url, y);
    url.append("?address=");
    let enc_loc = percent_encode(location);
    url.append(enc_loc.as_str());
    url.append("&method=3&shafaq=general&tune=5%2C3%2C5%2C7%2C9%2C-1%2C0%2C8%2C-6&timezonestring=");
    let enc_tz = percent_encode(tz);
    url.append(enc_tz.as_str());
    url.append("&calendarMethod=UAQ");
    proof {
        assert(url@ =~= request_url_spec(location@, tz@, y as int, m as int, d as int));
    }
    url
}

/// Relies on `chrono::Local::now().date_naive()` and `Datelike`: the
/// host's current calendar date.  It is a valid Gregorian date within
/// `chrono`'s representable years; which date it is depends on the host
/// clock, so nothing more is promised.  `Local::now` panics on a host
/// clock set before the Unix epoch.
#[verifier::external_body]
fn today_local() -> (r: (i32, u32, u32))
    ensures
        valid_date(r.0 as int, r.1 as int, r.2 as int),
        -262143 <= r.0 <= 262142,
{
    let d = chrono::Local::now().date_naive();
    (d.year(), d.month(), d.day())
}

/// Everything one fetch needs: the request URL, the resolved timezone
/// the instants will be anchored in, and the date the request names.
pub struct FetchRequest {
    pub url: String,
    pub timezone: String,
    pub year: u32,
    pub month: u32,
    pub day: u32,
}

/// Builds the request for `location` on the calendar date `y`-`m`-`d`:
/// the timezone is resolved, and the URL names the date alongside the
/// raw location and the resolved identifier.  A request exists exactly
/// when the year fits the four-digit segment of the request path.
pub fn request_for_date(location: &str, y: i32, m: u32, d: u32) -> (r: Option<FetchRequest>)
    requires
        valid_date(y as int, m as int, d as int),
    ensures
        r is Some <==> 0 <= y <= 9999,
        r matches Some(req) ==> {
            &&& req.year as int == y as int
            &&& req.month == m
            &&& req.day == d
            &&& valid_date(req.year as int, req.month as int, req.day as int)
            &&& req.year < 10000
            &&& is_iana_tz(req.timezone@)
            &&& (is_iana_tz(location@) ==> req.timezone@ == location@)
            &&& (!is_iana_tz(location@) ==> (alias_timezone(lower_seq(location@)) matches Some(t)
                ==> req.timezone@ == t))
            &&& (exists|off: int|
                -86400 < off < 86400 && req.timezone@ == resolve_spec(location@, off))
            &&& req.url@ == request_url_spec(
                location@,
                req.timezone@,
                req.year as int,
                req.month as int,
                req.day as int,
            )
        },
{
    if y < 0 || y > 9999 {
        return None;
    }
    let yy = y as u32;
    let tzname = get_timezone_for_location(location);
    let url = build_request_url(location, tzname.as_str(), yy, m, d);
    Some(FetchRequest { url, timezone: tzname, year: yy, month: m, day: d })
}

/// Builds the request for "today" at `location`: `request_for_date` on
/// the host's current calendar date.  `None` only when the host date's
/// year does not fit the four-digit segment of the request path, which
/// `request_for_date` decides.
pub fn todays_request(location: &str) -> (r: Option<FetchRequest>)
    ensures
        r matches Some(req) ==> {
            &&& valid_date(req.year as int, req.month as int, req.day as int)
            &&& req.year < 10000
            &&& is_iana_tz(req.timezone@)
            &&& (is_iana_tz(location@) ==> req.timezone@ == location@)
            &&& (!is_iana_tz(location@) ==> (alias_timezone(lower_seq(location@)) matches Some(t)
                ==> req.timezone@ == t))
            &&& (exists|off: int|
                -86400 < off < 86400 && req.timezone@ == resolve_spec(location@, off))
            &&& req.url@ == request_url_spec(
                location@,
                req.timezone@,
                req.year as int,
                req.month as int,
                req.day as int,
            )
        },
{
    let (y, m, d) = today_local();
    request_for_date(location, y, m, d)
}

} // verus!
