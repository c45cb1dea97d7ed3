//! From a timings-service response body to absolute prayer instants: the
//! response is parsed, each of the five fixed prayer names that appears
//! is read as a wall-clock time, and the wall-clock time is anchored on
//! the given calendar date in the resolved timezone.

use vstd::prelude::*;
use chrono::TimeZone;
use crate::resolver::{is_iana_tz, tz_is_valid};
use crate::text::{chars_of, hhmm_spec, parse_hhmm, string_eq_str};

verus! {

/// The date block of a timings response.
#[derive(Debug, Clone)]
pub struct PrayerDate {
    pub readable: String,
    pub timestamp: String,
}

/// The payload of a timings response: the name-to-time mapping and the
/// date block, in the order the response carries them.
#[derive(Debug, Clone)]
pub struct PrayerData {
    pub timings: Vec<(String, String)>,
    pub date: PrayerDate,
}

/// A timings-service response, reduced to the fields the scheduler reads.
#[derive(Debug, Clone)]
pub struct PrayerTimesResponse {
    pub data: PrayerData,
}

/// One prayer of the current day: its name, its wall-clock time as the
/// service wrote it, and the absolute instant (Unix seconds) that time
/// denotes in the resolved timezone.
#[derive(Debug, Clone)]
pub struct PrayerTime {
    pub name: String,
    pub time: String,
    pub datetime: i64,
}

/// The mathematical content of a `PrayerTime`.
pub ghost struct PrayerTimeView {
    pub name: Seq<char>,
    pub time: Seq<char>,
    pub datetime: int,
}

impl View for PrayerTime {
    type V = PrayerTimeView;

    open spec fn view(&self) -> PrayerTimeView {
        PrayerTimeView { name: self.name@, time: self.time@, datetime: self.datetime as int }
    }
}

/// The views of a sequence of prayer times.
pub open spec fn pt_views(s: Seq<PrayerTime>) -> Seq<PrayerTimeView> {
    s.map_values(|p: PrayerTime| p@)
}

/// What parsing a response body yields: the `data.timings` pairs in
/// order, `data.date.readable` and `data.date.timestamp`; `None` when the
/// body is not a JSON document of that shape.  A fixed function of the
/// body alone.
pub uninterp spec fn parsed_response(body: Seq<char>) -> Option<
    (Seq<(Seq<char>, Seq<char>)>, Seq<char>, Seq<char>),
>;

/// Relies on `serde_json`: `from_str` to a `Value`, then `get`,
/// `as_object` and `as_str` to extract `data.timings` (every value must
/// be a string), `data.date.readable` and `data.date.timestamp`; any
/// missing or differently-typed part makes the whole body unparseable.
#[verifier::external_body]
fn parse_response_body(body: &str) -> (r: Option<PrayerTimesResponse>)
    ensures
        match r {
            None => parsed_response(body@) is None,
            Some(resp) => {
                &&& parsed_response(body@) matches Some(p)
                &&& resp.data.timings@.len() == p.0.len()
                &&& (forall|i: int|
                    0 <= i < p.0.len() ==> (#[trigger] resp.data.timings@[i]).0@ == p.0[i].0
                        && resp.data.timings@[i].1@ == p.0[i].1)
                &&& resp.data.date.readable@ == p.1
                &&& resp.data.date.timestamp@ == p.2
            },
        },
{
    let v: serde_json::Value = match serde_json::from_str(body) {
        Ok(v) => v,
        Err(_) => return None,
    };
    let data = v.get("data")?;
    let readable = data.get("date")?.get("readable")?.as_str()?.to_string();
    let timestamp = data.get("date")?.get("timestamp")?.as_str()?.to_string();
    let mut timings: Vec<(String, String)> = Vec::new();
    for (k, val) in data.get("timings")?.as_object()? {
        timings.push((k.clone(), val.as_str()?.to_string()));
    }
    Some(PrayerTimesResponse { data: PrayerData { timings, date: PrayerDate { readable, timestamp } } })
}

/// Whether `y`-`m`-`d` is a date of the proleptic Gregorian calendar.
pub open spec fn valid_date(y: int, m: int, d: int) -> bool {
    1 <= m <= 12 && 1 <= d <= days_in_month(y, m)
}

/// The number of days of month `m` of year `y`.
pub open spec fn days_in_month(y: int, m: int) -> int {
    if m == 2 {
        if is_leap_year(y) {
            29
        } else {
            28
        }
    } else if m == 4 || m == 6 || m == 9 || m == 11 {
        30
    } else {
        31
    }
}

/// Gregorian leap years.
pub open spec fn is_leap_year(y: int) -> bool {
    (y % 4 == 0 && y % 100 != 0) || y % 400 == 0
}

/// The unique instant (Unix seconds) whose wall-clock reading in timezone
/// `tz` is `hh:mm` on the date `y`-`m`-`d`, or `None` when that local
/// time is skipped or repeated there (a DST transition).  Fixed by the
/// IANA database that `chrono-tz` bundles.
pub uninterp spec fn local_instant(tz: Seq<char>, y: int, m: int, d: int, hh: int, mm: int) -> Option<int>;

/// The wall-clock hour and minute that instant `t` (Unix seconds) shows
/// in timezone `tz`.
pub uninterp spec fn local_hm(tz: Seq<char>, t: int) -> (int, int);

/// The wall-clock calendar date that instant `t` (Unix seconds) shows in
/// timezone `tz`.
pub uninterp spec fn local_ymd(tz: Seq<char>, t: int) -> (int, int, int);

/// Relies on `chrono-tz`'s `TimeZone::from_local_datetime` with
/// `LocalResult::single` and `chrono`'s `DateTime::timestamp`: a wall
/// clock time on a date is anchored to the unique instant that carries
/// it, or `None` when the local time is ambiguous or nonexistent.  The
/// returned `DateTime` carries exactly the given local date and time, so
/// reading the instant back in the same timezone reproduces the calendar
/// date and the hour and minute.
#[verifier::external_body]
fn anchor_local_time(tz_name: &str, y: u32, m: u32, d: u32, hh: u32, mm: u32) -> (r: Option<
    i64,
>)
    requires
        is_iana_tz(tz_name@),
        valid_date(y as int, m as int, d as int),
        y < 10000,
        hh < 24,
        mm < 60,
    ensures
        match r {
            Some(t) => local_instant(tz_name@, y as int, m as int, d as int, hh as int, mm as int)
                == Some(t as int) && local_hm(tz_name@, t as int) == (hh as int, mm as int)
                && local_ymd(tz_name@, t as int) == (y as int, m as int, d as int),
            None => local_instant(
                tz_name@,
                y as int,
                m as int,
                d as int,
                hh as int,
                mm as int,
            ) is None,
        },
{
    let tz: chrono_tz::Tz = match tz_name.parse() {
        Ok(t) => t,
        Err(_) => return None,
    };
    let date = chrono::NaiveDate::from_ymd_opt(y as i32, m, d)?;
    let time = chrono::NaiveTime::from_hms_opt(hh, mm, 0)?;
    match tz.from_local_datetime(&date.and_time(time)).single() {
        Some(dt) => Some(dt.timestamp()),
        None => None,
    }
}

/// Why a cycle obtained no prayer instants.
#[derive(Debug, Clone)]
pub enum PrayerFetchError {
    /// The transport failed before any body arrived; carries the cause.
    Fetch(String),
    /// The body was not a response of the expected shape.
    Parse,
    /// The resolved timezone is not in the IANA database; carries it.
    InvalidTimezone(String),
    /// A prayer's wall-clock time is ambiguous or nonexistent on this
    /// date in the resolved timezone; carries the prayer's name.
    Timezone(String),
}

/// The five prayer names, in their fixed enumeration order.
pub open spec fn prayer_names_spec() -> Seq<Seq<char>> {
    seq!["Fajr"@, "Dhuhr"@, "Asr"@, "Maghrib"@, "Isha"@]
}

fn prayer_name_str(i: usize) -> (r: &'static str)
    requires
        i < 5,
    ensures
        r@ == prayer_names_spec()[i as int],
{
    match i {
        0 => "Fajr",
        1 => "Dhuhr",
        2 => "Asr",
        3 => "Maghrib",
        _ => "Isha",
    }
}

/// The first timing whose name is `name`, scanning the pairs in order.
pub open spec fn lookup_timing(ts: Seq<(Seq<char>, Seq<char>)>, name: Seq<char>) -> Option<
    Seq<char>,
>
    decreases ts.len(),
{
    if ts.len() == 0 {
        None
    } else if ts[0].0 == name {
        Some(ts[0].1)
    } else {
        lookup_timing(ts.drop_first(), name)
    }
}

/// The views of the timing pairs.
pub open spec fn timings_views(ts: Seq<(String, String)>) -> Seq<(Seq<char>, Seq<char>)> {
    ts.map_values(|p: (String, String)| (p.0@, p.1@))
}

fn lookup_timing_x(ts: &Vec<(String, String)>, name: &str) -> (r: Option<String>)
    ensures
        match r {
            Some(t) => lookup_timing(timings_views(ts@), name@) == Some(t@),
            None => lookup_timing(timings_views(ts@), name@) is None,
        },
{
    let mut i: usize = 0;
    proof {
        assert(ts@.subrange(0, ts@.len() as int) =~= ts@);
    }
    while i < ts.len()
        invariant
            i <= ts.len(),
            lookup_timing(timings_views(ts@), name@) == lookup_timing(
                timings_views(ts@.subrange(i as int, ts@.len() as int)),
                name@,
            ),
        decreases ts.len() - i,
    {
        proof {
            assert(timings_views(ts@.subrange(i as int, ts@.len() as int)).len() > 0);
            assert(timings_views(ts@.subrange(i as int, ts@.len() as int))[0] == (
                ts@[i as int].0@,
                ts@[i as int].1@,
            ));
        }
        if string_eq_str(&ts[i].0, name) {
            return Some(ts[i].1.clone());
        }
        proof {
            assert(timings_views(ts@.subrange(i as int, ts@.len() as int)).drop_first()
                =~= timings_views(ts@.subrange(i + 1, ts@.len() as int)));
        }
        i = i + 1;
    }
    proof {
        assert(timings_views(ts@.subrange(ts@.len() as int, ts@.len() as int)).len() == 0);
    }
    None
}

/// The instants of the prayers listed from position `i` of the fixed
/// name order: a name absent from the timings, or present with a time
/// outside the `HH:MM` grammar, is skipped; a time that cannot be
/// anchored fails the whole day with that prayer's name.
pub open spec fn instants_from(
    ts: Seq<(Seq<char>, Seq<char>)>,
    tz: Seq<char>,
    y: int,
    m: int,
    d: int,
    i: int,
) -> Result<Seq<PrayerTimeView>, Seq<char>>
    decreases 5 - i,
{
    if i < 0 || i >= 5 {
        Ok(Seq::empty())
    } else {
        let name = prayer_names_spec()[i];
        match lookup_timing(ts, name) {
            None => instants_from(ts, tz, y, m, d, i + 1),
            Some(tstr) => match hhmm_spec(tstr) {
                None => instants_from(ts, tz, y, m, d, i + 1),
                Some(hm) => match local_instant(tz, y, m, d, hm.0, hm.1) {
                    None => Err(name),
                    Some(t) => match instants_from(ts, tz, y, m, d, i + 1) {
                        Ok(rest) => Ok(
                            seq![PrayerTimeView { name: name, time: tstr, datetime: t }] + rest,
                        ),
                        Err(e) => Err(e),
                    },
                },
            },
        }
    }
}

/// Parses a response body and anchors today's prayers in timezone `tz`.
///
/// Exactly one of four things happens: `Parse` when the body is not in
/// the expected shape; `InvalidTimezone` when `tz` is not an IANA
/// identifier; `Timezone` with the first prayer (in the fixed order)
/// whose time cannot be anchored; otherwise the prayers present in the
/// response, in the fixed order, each carrying its anchored instant.
/// Every returned instant reads back in `tz` as the given calendar date
/// and as the hour and minute of its `HH:MM` string.
pub fn prayer_times_from_body(body: &str, tz: &str, y: u32, m: u32, d: u32) -> (r: Result<
    Vec<PrayerTime>,
    PrayerFetchError,
>)
    requires
        valid_date(y as int, m as int, d as int),
        y < 10000,
    ensures
        match r {
            Ok(v) => {
                &&& parsed_response(body@) matches Some(p)
                &&& is_iana_tz(tz@)
                &&& instants_from(p.0, tz@, y as int, m as int, d as int, 0) == Ok::<_, Seq<char>>(
                    pt_views(v@),
                )
                &&& (forall|k: int|
                    0 <= k < v@.len() ==> {
                        &&& hhmm_spec((#[trigger] v@[k])@.time) matches Some(hm)
                        &&& local_hm(tz@, v@[k]@.datetime) == hm
                        &&& local_ymd(tz@, v@[k]@.datetime) == (y as int, m as int, d as int)
                    })
            },
            Err(e) => match e {
                PrayerFetchError::Parse => parsed_response(body@) is None,
                PrayerFetchError::InvalidTimezone(t) => t@ == tz@ && !is_iana_tz(tz@)
                    && parsed_response(body@) is Some,
                PrayerFetchError::Timezone(n) => {
                    &&& parsed_response(body@) matches Some(p)
                    &&& is_iana_tz(tz@)
                    &&& instants_from(p.0, tz@, y as int, m as int, d as int, 0) == Err::<
                        Seq<PrayerTimeView>,
                        _,
                    >(n@)
                },
                PrayerFetchError::Fetch(_) => false,
            },
        },
{
    let resp = match parse_response_body(body) {
        None => {
            return Err(PrayerFetchError::Parse);
        },
        Some(resp) => resp,
    };
    if !tz_is_valid(tz) {
        return Err(PrayerFetchError::InvalidTimezone(tz.to_owned()));
    }
    let ghost tsv = parsed_response(body@)->Some_0.0;
    proof {
        assert(timings_views(resp.data.timings@) =~= tsv);
    }
    let mut out: Vec<PrayerTime> = Vec::new();
    proof {
        assert(pt_views(out@) =~= Seq::<PrayerTimeView>::empty());
        if instants_from(tsv, tz@, y as int, m as int, d as int, 0) is Ok {
            let rest = instants_from(tsv, tz@, y as int, m as int, d as int, 0)->Ok_0;
            assert(pt_views(out@) + rest =~= rest);
        }
    }
    let mut i: usize = 0;
    while i < 5
        invariant
            i <= 5,
            is_iana_tz(tz@),
            valid_date(y as int, m as int, d as int),
            y < 10000,
            parsed_response(body@) is Some,
            parsed_response(body@)->Some_0.0 == tsv,
            timings_views(resp.data.timings@) == tsv,
            forall|k: int|
                0 <= k < out@.len() ==> {
                    &&& hhmm_spec((#[trigger] out@[k])@.time) matches Some(hm)
                    &&& local_hm(tz@, out@[k]@.datetime) == hm
                    &&& local_ymd(tz@, out@[k]@.datetime) == (y as int, m as int, d as int)
                },
            match instants_from(tsv, tz@, y as int, m as int, d as int, i as int) {
                Ok(rest) => instants_from(tsv, tz@, y as int, m as int, d as int, 0) == Ok::<
                    _,
                    Seq<char>,
                >(pt_views(out@) + rest),
                Err(e) => instants_from(tsv, tz@, y as int, m as int, d as int, 0) == Err::<
                    Seq<PrayerTimeView>,
                    _,
                >(e),
            },
        decreases 5 - i,
    {
        let ghost ii = i as int;
        let ghost whole = instants_from(tsv, tz@, y as int, m as int, d as int, 0);
        let ghost here = instants_from(tsv, tz@, y as int, m as int, d as int, ii);
        let ghost nxt = instants_from(tsv, tz@, y as int, m as int, d as int, ii + 1);
        let name = prayer_name_str(i);
        match lookup_timing_x(&resp.data.timings, name) {
            None => {
                proof {
                    assert(here == nxt);
                }
            },
            Some(tstr) => {
                let cs = chars_of(tstr.as_str());
                match parse_hhmm(&cs) {
                    None => {
                        proof {
                            assert(here == nxt);
                        }
                    },
                    Some(hm) => {
                        match anchor_local_time(tz, y, m, d, hm.0, hm.1) {
                            None => {
                                proof {
                                    assert(here == Err::<Seq<PrayerTimeView>, _>(
                                        prayer_names_spec()[ii],
                                    ));
                                    assert(whole == Err::<Seq<PrayerTimeView>, _>(
                                        prayer_names_spec()[ii],
                                    ));
                                }
                                return Err(PrayerFetchError::Timezone(name.to_owned()));
                            },
                            Some(t) => {
                                let pt = PrayerTime {
                                    name: name.to_owned(),
                                    time: tstr,
                                    datetime: t,
                                };
                                let ghost out_old = out@;
                                out.push(pt);
                                proof {
                                    let pv = PrayerTimeView {
                                        name: prayer_names_spec()[ii],
                                        time: cs@,
                                        datetime: t as int,
                                    };
                                    assert(pt@ == pv);
                                    assert(pt_views(out@) =~= pt_views(out_old).push(pv));
                                    if nxt is Ok {
                                        let rest = nxt->Ok_0;
                                        assert(here == Ok::<_, Seq<char>>(seq![pv] + rest));
                                        assert(pt_views(out_old) + (seq![pv] + rest) =~= pt_views(
                                            out@,
                                        ) + rest);
                                    } else {
                                        assert(here == nxt);
                                    }
                                }
                            },
                        }
                    },
                }
            },
        }
        i = i + 1;
    }
    proof {
        assert(instants_from(tsv, tz@, y as int, m as int, d as int, 5) == Ok::<
            Seq<PrayerTimeView>,
            Seq<char>,
        >(Seq::empty()));
        assert(pt_views(out@) + Seq::<PrayerTimeView>::empty() =~= pt_views(out@));
    }
    Ok(out)
}

} // verus!
