//! Location resolution: a free-form location string becomes an IANA
//! timezone identifier, by direct parse, then a curated alias table, then
//! host-offset inference.

use vstd::prelude::*;
use chrono::Offset;
use crate::text::{chars_of, contains_seq, contains_str, lower_seq, lower_vec};

verus! {

/// Whether the characters form an identifier of the IANA timezone
/// database, as the `chrono-tz` crate's `Tz::from_str` accepts it.
pub uninterp spec fn is_iana_tz(s: Seq<char>) -> bool;

/// Relies on `chrono_tz::Tz::from_str`: it succeeds exactly on the
/// identifiers of the bundled IANA database, a fixed function of the
/// string alone.
#[verifier::external_body]
pub(crate) fn tz_is_valid(name: &str) -> (r: bool)
    ensures
        r == is_iana_tz(name@),
{
    name.parse::<chrono_tz::Tz>().is_ok()
}

/// Relies on `chrono::Local::now().offset().local_minus_utc()`: the host's
/// current UTC offset in seconds.  `chrono`'s `FixedOffset` keeps the
/// value strictly between plus and minus one day; nothing more holds of
/// it, since it depends on the host's clock and timezone.  `Local::now`
/// panics on a host clock set before the Unix epoch.
#[verifier::external_body]
fn host_utc_offset_seconds() -> (r: i32)
    ensures
        -86400 < r < 86400,
{
    chrono::Local::now().offset().fix().local_minus_utc()
}

/// Every identifier that the alias table or the offset fallback can
/// return is in the IANA database.
pub open spec fn resolver_outputs_iana() -> bool {
    &&& is_iana_tz("Asia/Taipei"@)
    &&& is_iana_tz("Asia/Jakarta"@)
    &&& is_iana_tz("Asia/Tokyo"@)
    &&& is_iana_tz("Asia/Singapore"@)
    &&& is_iana_tz("Asia/Kuala_Lumpur"@)
    &&& is_iana_tz("Asia/Bangkok"@)
    &&& is_iana_tz("Asia/Manila"@)
    &&& is_iana_tz("Asia/Seoul"@)
    &&& is_iana_tz("Asia/Hong_Kong"@)
    &&& is_iana_tz("Asia/Dubai"@)
    &&& is_iana_tz("Asia/Riyadh"@)
    &&& is_iana_tz("Africa/Cairo"@)
    &&& is_iana_tz("Europe/Istanbul"@)
    &&& is_iana_tz("Europe/London"@)
    &&& is_iana_tz("Europe/Paris"@)
    &&& is_iana_tz("Europe/Berlin"@)
    &&& is_iana_tz("America/New_York"@)
    &&& is_iana_tz("America/Los_Angeles"@)
    &&& is_iana_tz("America/Chicago"@)
    &&& is_iana_tz("America/Toronto"@)
    &&& is_iana_tz("Australia/Sydney"@)
    &&& is_iana_tz("Australia/Melbourne"@)
    &&& is_iana_tz("UTC"@)
}

/// Relies on `chrono_tz::Tz::from_str` and the bundled IANA table: every
/// one of these fixed identifiers stands in that table, so each parse
/// succeeds and the check returns true.
#[verifier::external_body]
fn fixed_outputs_are_iana() -> (r: bool)
    ensures
        r,
        r == resolver_outputs_iana(),
{
    let names = [
        "Asia/Taipei", "Asia/Jakarta", "Asia/Tokyo", "Asia/Singapore", "Asia/Kuala_Lumpur",
        "Asia/Bangkok", "Asia/Manila", "Asia/Seoul", "Asia/Hong_Kong", "Asia/Dubai",
        "Asia/Riyadh", "Africa/Cairo", "Europe/Istanbul", "Europe/London", "Europe/Paris",
        "Europe/Berlin", "America/New_York", "America/Los_Angeles", "America/Chicago",
        "America/Toronto", "Australia/Sydney", "Australia/Melbourne", "UTC",
    ];
    names.iter().all(|name| name.parse::<chrono_tz::Tz>().is_ok())
}

/// The curated alias table: the first entry whose pattern occurs in the
/// lowercased location wins.  Entry order follows the table as published,
/// so more specific names must stay ahead of broader ones.
pub open spec fn alias_timezone(low: Seq<char>) -> Option<Seq<char>> {
    if contains_seq(low, "taipei"@) || contains_seq(low, "taiwan"@) {
        Some("Asia/Taipei"@)
    } else if contains_seq(low, "jakarta"@) || contains_seq(low, "indonesia"@) {
        Some("Asia/Jakarta"@)
    } else if contains_seq(low, "tokyo"@) || contains_seq(low, "japan"@) {
        Some("Asia/Tokyo"@)
    } else if contains_seq(low, "singapore"@) {
        Some("Asia/Singapore"@)
    } else if contains_seq(low, "kuala lumpur"@) || contains_seq(low, "malaysia"@) {
        Some("Asia/Kuala_Lumpur"@)
    } else if contains_seq(low, "bangkok"@) || contains_seq(low, "thailand"@) {
        Some("Asia/Bangkok"@)
    } else if contains_seq(low, "manila"@) || contains_seq(low, "philippines"@) {
        Some("Asia/Manila"@)
    } else if contains_seq(low, "seoul"@) || contains_seq(low, "korea"@) {
        Some("Asia/Seoul"@)
    } else if contains_seq(low, "hong kong"@) {
        Some("Asia/Hong_Kong"@)
    } else if contains_seq(low, "dubai"@) || contains_seq(low, "uae"@) {
        Some("Asia/Dubai"@)
    } else if contains_seq(low, "riyadh"@) || contains_seq(low, "saudi"@) {
        Some("Asia/Riyadh"@)
    } else if contains_seq(low, "cairo"@) || contains_seq(low, "egypt"@) {
        Some("Africa/Cairo"@)
    } else if contains_seq(low, "istanbul"@) || contains_seq(low, "turkey"@) {
        Some("Europe/Istanbul"@)
    } else if contains_seq(low, "london"@) || contains_seq(low, "uk"@) {
        Some("Europe/London"@)
    } else if contains_seq(low, "paris"@) || contains_seq(low, "france"@) {
        Some("Europe/Paris"@)
    } else if contains_seq(low, "berlin"@) || contains_seq(low, "germany"@) {
        Some("Europe/Berlin"@)
    } else if contains_seq(low, "new york"@) || contains_seq(low, "nyc"@) {
        Some("America/New_York"@)
    } else if contains_seq(low, "los angeles"@) || contains_seq(low, "la"@) {
        Some("America/Los_Angeles"@)
    } else if contains_seq(low, "chicago"@) {
        Some("America/Chicago"@)
    } else if contains_seq(low, "toronto"@) || contains_seq(low, "canada"@) {
        Some("America/Toronto"@)
    } else if contains_seq(low, "sydney"@) || contains_seq(low, "australia"@) {
        Some("Australia/Sydney"@)
    } else if contains_seq(low, "melbourne"@) {
        Some("Australia/Melbourne"@)
    } else {
        None
    }
}

/// The timezone inferred from the host's UTC offset when nothing else
/// matched; any offset outside the small known set defaults to UTC.
pub open spec fn fallback_timezone(offset_seconds: int) -> Seq<char> {
    if offset_seconds == 28800 {
        "Asia/Taipei"@
    } else if offset_seconds == 25200 {
        "Asia/Jakarta"@
    } else if offset_seconds == 32400 {
        "Asia/Tokyo"@
    } else {
        "UTC"@
    }
}

/// What resolution returns: the location itself when it is already an
/// IANA identifier, else the first alias-table match on the lowercased
/// location, else the host-offset fallback.
pub open spec fn resolve_spec(loc: Seq<char>, offset_seconds: int) -> Seq<char> {
    if is_iana_tz(loc) {
        loc
    } else {
        match alias_timezone(lower_seq(loc)) {
            Some(t) => t,
            None => fallback_timezone(offset_seconds),
        }
    }
}

/// Resolution is the identity on a string that is already an IANA
/// timezone identifier, whatever the host offset.
pub proof fn lemma_resolve_identity(loc: Seq<char>, offset_seconds: int)
    requires
        is_iana_tz(loc),
    ensures
        resolve_spec(loc, offset_seconds) == loc,
{
}

/// On a location that is no IANA identifier, the first matching entry of
/// the alias table decides, and the host offset plays no part.
pub proof fn lemma_resolve_alias(loc: Seq<char>, offset_seconds: int, t: Seq<char>)
    requires
        !is_iana_tz(loc),
        alias_timezone(lower_seq(loc)) == Some(t),
    ensures
        resolve_spec(loc, offset_seconds) == t,
{
}

/// Resolves `location` against a given host UTC offset; total, and
/// deterministic in its two arguments.  The result always parses as an
/// IANA identifier: either the location itself did, or it is one of the
/// fixed table and fallback values.
pub fn resolve_with_offset(location: &str, offset_seconds: i32) -> (r: String)
    ensures
        r@ == resolve_spec(location@, offset_seconds as int),
        is_iana_tz(r@),
{
    if tz_is_valid(location) {
        return location.to_owned();
    }
    let _table_valid = fixed_outputs_are_iana();
    let low = lower_vec(&chars_of(location));
    if contains_str(&low, "taipei") || contains_str(&low, "taiwan") {
        String::from_str("Asia/Taipei")
    } else if contains_str(&low, "jakarta") || contains_str(&low, "indonesia") {
        String::from_str("Asia/Jakarta")
    } else if contains_str(&low, "tokyo") || contains_str(&low, "japan") {
        String::from_str("Asia/Tokyo")
    } else if contains_str(&low, "singapore") {
        String::from_str("Asia/Singapore")
    } else if contains_str(&low, "kuala lumpur") || contains_str(&low, "malaysia") {
        String::from_str("Asia/Kuala_Lumpur")
    } else if contains_str(&low, "bangkok") || contains_str(&low, "thailand") {
        String::from_str("Asia/Bangkok")
    } else if contains_str(&low, "manila") || contains_str(&low, "philippines") {
        String::from_str("Asia/Manila")
    } else if contains_str(&low, "seoul") || contains_str(&low, "korea") {
        String::from_str("Asia/Seoul")
    } else if contains_str(&low, "hong kong") {
        String::from_str("Asia/Hong_Kong")
    } else if contains_str(&low, "dubai") || contains_str(&low, "uae") {
        String::from_str("Asia/Dubai")
    } else if contains_str(&low, "riyadh") || contains_str(&low, "saudi") {
        String::from_str("Asia/Riyadh")
    } else if contains_str(&low, "cairo") || contains_str(&low, "egypt") {
        String::from_str("Africa/Cairo")
    } else if contains_str(&low, "istanbul") || contains_str(&low, "turkey") {
        String::from_str("Europe/Istanbul")
    } else if contains_str(&low, "london") || contains_str(&low, "uk") {
        String::from_str("Europe/London")
    } else if contains_str(&low, "paris") || contains_str(&low, "france") {
        String::from_str("Europe/Paris")
    } else if contains_str(&low, "berlin") || contains_str(&low, "germany") {
        String::from_str("Europe/Berlin")
    } else if contains_str(&low, "new york") || contains_str(&low, "nyc") {
        String::from_str("America/New_York")
    } else if contains_str(&low, "los angeles") || contains_str(&low, "la") {
        String::from_str("America/Los_Angeles")
    } else if contains_str(&low, "chicago") {
        String::from_str("America/Chicago")
    } else if contains_str(&low, "toronto") || contains_str(&low, "canada") {
        String::from_str("America/Toronto")
    } else if contains_str(&low, "sydney") || contains_str(&low, "australia") {
        String::from_str("Australia/Sydney")
    } else if contains_str(&low, "melbourne") {
        String::from_str("Australia/Melbourne")
    } else if offset_seconds == 28800 {
        String::from_str("Asia/Taipei")
    } else if offset_seconds == 25200 {
        String::from_str("Asia/Jakarta")
    } else if offset_seconds == 32400 {
        String::from_str("Asia/Tokyo")
    } else {
        String::from_str("UTC")
    }
}

/// Resolves `location` to an IANA timezone identifier; total, and the
/// result always parses as one.  The host UTC offset enters only the
/// last-resort fallback, so everything up to that is pinned down, and
/// the result is always one that `resolve_spec` gives for some in-range
/// host offset.
pub fn get_timezone_for_location(location: &str) -> (r: String)
    ensures
        is_iana_tz(r@),
        is_iana_tz(location@) ==> r@ == location@,
        !is_iana_tz(location@) ==> (alias_timezone(lower_seq(location@)) matches Some(t) ==> r@
            == t),
        exists|off: int| -86400 < off < 86400 && r@ == resolve_spec(location@, off),
{
    let off = host_utc_offset_seconds();
    let r = resolve_with_offset(location, off);
    proof {
        assert(-86400 < (off as int) && (off as int) < 86400);
        assert(r@ == resolve_spec(location@, off as int));
    }
    r
}

} // verus!
