//! The reminder evaluator: given the current instant, the day's prayer
//! instants and the enabled-prayer filter, decides which reminders fire
//! now, and drives one whole evaluation cycle from a fetched body to the
//! events to dispatch.

use vstd::prelude::*;
use crate::resolver::is_iana_tz;
use crate::settings::AppSettings;
use crate::text::strings_views;
use crate::timings::{PrayerFetchError, PrayerTime, PrayerTimeView, instants_from,
    parsed_response, prayer_times_from_body, pt_views, valid_date};

verus! {

/// A reminder to surface: a title, a body naming the prayer and its
/// wall-clock time, and whether to play the sound.
#[derive(Debug, Clone)]
pub struct ReminderEvent {
    pub title: String,
    pub body: String,
    pub should_play_sound: bool,
}

/// The mathematical content of a `ReminderEvent`.
pub ghost struct ReminderEventView {
    pub title: Seq<char>,
    pub body: Seq<char>,
    pub should_play_sound: bool,
}

impl View for ReminderEvent {
    type V = ReminderEventView;

    open spec fn view(&self) -> ReminderEventView {
        ReminderEventView {
            title: self.title@,
            body: self.body@,
            should_play_sound: self.should_play_sound,
        }
    }
}

/// The views of a sequence of reminder events.
pub open spec fn ev_views(s: Seq<ReminderEvent>) -> Seq<ReminderEventView> {
    s.map_values(|e: ReminderEvent| e@)
}

/// The evaluation window: `t` is at or after `now` and less than sixty
/// seconds past it.  The instant exactly sixty seconds away is excluded;
/// the instant exactly at `now` is included.
pub open spec fn in_window(now: int, t: int) -> bool {
    now <= t < now + 60
}

/// A prayer instant qualifies when its name is enabled and its instant
/// lies in the window.
pub open spec fn qualifies(p: PrayerTimeView, now: int, enabled: Seq<Seq<char>>) -> bool {
    enabled.contains(p.name) && in_window(now, p.datetime)
}

/// The reminder produced for a qualifying prayer instant.
pub open spec fn reminder_for(p: PrayerTimeView, play_sound: bool) -> ReminderEventView {
    ReminderEventView {
        title: "Prayer Time: "@ + p.name,
        body: "It's time for "@ + p.name + " prayer at "@ + p.time,
        should_play_sound: play_sound,
    }
}

/// Exactly the qualifying instants, in their given order, each mapped to
/// its reminder.
pub open spec fn events_spec(
    instants: Seq<PrayerTimeView>,
    now: int,
    enabled: Seq<Seq<char>>,
    play_sound: bool,
) -> Seq<ReminderEventView> {
    instants.filter(|p: PrayerTimeView| qualifies(p, now, enabled)).map_values(
        (|p: PrayerTimeView| reminder_for(p, play_sound)),
    )
}

/// The window's boundaries: an instant exactly at `now` is in, an
/// instant exactly sixty seconds away is out.
pub proof fn lemma_window_boundaries(now: int)
    ensures
        in_window(now, now),
        !in_window(now, now + 60),
{
}

/// Every element of a filtered sequence stands in the original.
proof fn lemma_filter_is_from<A>(s: Seq<A>, pred: spec_fn(A) -> bool)
    ensures
        forall|j: int|
            0 <= j < s.filter(pred).len() ==> exists|k: int|
                0 <= k < s.len() && s[k] == #[trigger] s.filter(pred)[j],
    decreases s.len(),
{
    reveal(Seq::filter);
    if s.len() > 0 {
        let dl = s.drop_last();
        lemma_filter_is_from(dl, pred);
        assert forall|j: int| 0 <= j < s.filter(pred).len() implies exists|k: int|
            0 <= k < s.len() && s[k] == #[trigger] s.filter(pred)[j] by {
            if j < dl.filter(pred).len() {
                let k = choose|k: int| 0 <= k < dl.len() && dl[k] == dl.filter(pred)[j];
                assert(s[k] == s.filter(pred)[j]);
            } else {
                assert(s.filter(pred)[j] == s.last());
                assert(s[s.len() - 1] == s.filter(pred)[j]);
            }
        }
    }
}

/// Evaluation is exact, on every instant list: each instant whose name
/// is enabled and whose instant lies in the window contributes its
/// reminder to the events, and every event comes from such an instant.
pub proof fn lemma_events_exact(
    instants: Seq<PrayerTimeView>,
    now: int,
    enabled: Seq<Seq<char>>,
    play_sound: bool,
)
    ensures
        forall|i: int|
            0 <= i < instants.len() && qualifies(#[trigger] instants[i], now, enabled)
                ==> events_spec(instants, now, enabled, play_sound).contains(
                reminder_for(instants[i], play_sound),
            ),
        forall|e: ReminderEventView|
            #[trigger] events_spec(instants, now, enabled, play_sound).contains(e)
                ==> exists|k: int|
                0 <= k < instants.len() && qualifies(instants[k], now, enabled) && e == #[trigger]
                reminder_for(instants[k], play_sound),
{
    let q = |p: PrayerTimeView| qualifies(p, now, enabled);
    let f = |p: PrayerTimeView| reminder_for(p, play_sound);
    let fs = instants.filter(q);
    let ev = events_spec(instants, now, enabled, play_sound);
    assert(ev == fs.map_values(f));
    lemma_filter_is_from(instants, q);
    assert forall|i: int|
        0 <= i < instants.len() && qualifies(#[trigger] instants[i], now, enabled) implies ev
        .contains(reminder_for(instants[i], play_sound)) by {
        instants.lemma_filter_contains(q, i);
        let j = choose|j: int| 0 <= j < fs.len() && fs[j] == instants[i];
        assert(ev[j] == reminder_for(instants[i], play_sound));
    }
    assert forall|e: ReminderEventView|
        #[trigger] events_spec(instants, now, enabled, play_sound).contains(e) implies exists|
        k: int,
    |
        0 <= k < instants.len() && qualifies(instants[k], now, enabled) && e == #[trigger]
        reminder_for(instants[k], play_sound) by {
        let j = choose|j: int| 0 <= j < ev.len() && ev[j] == e;
        instants.lemma_filter_pred(q, j);
        let k = choose|k: int| 0 <= k < instants.len() && instants[k] == fs[j];
        assert(qualifies(instants[k], now, enabled));
        assert(e == reminder_for(instants[k], play_sound));
    }
}

/// The window's boundaries on any instant list: an enabled instant
/// exactly at `now` fires (its reminder is among the events), and one
/// exactly sixty seconds past `now` does not qualify, so only a
/// qualifying instant elsewhere in the list could produce an event.
pub proof fn lemma_boundary_instants(
    instants: Seq<PrayerTimeView>,
    now: int,
    enabled: Seq<Seq<char>>,
    play_sound: bool,
    i: int,
)
    requires
        0 <= i < instants.len(),
        enabled.contains(instants[i].name),
    ensures
        instants[i].datetime == now ==> events_spec(instants, now, enabled, play_sound).contains(
            reminder_for(instants[i], play_sound),
        ),
        instants[i].datetime == now + 60 ==> !qualifies(instants[i], now, enabled),
{
    lemma_events_exact(instants, now, enabled, play_sound);
}

/// With no prayer enabled, no instant qualifies and evaluation yields no
/// event, whatever the instants.
pub proof fn lemma_empty_enabled_no_events(
    instants: Seq<PrayerTimeView>,
    now: int,
    play_sound: bool,
)
    ensures
        events_spec(instants, now, Seq::empty(), play_sound) == Seq::<ReminderEventView>::empty(),
    decreases instants.len(),
{
    reveal(Seq::filter);
    if instants.len() == 0 {
        assert(instants.filter(
            |p: PrayerTimeView| qualifies(p, now, Seq::<Seq<char>>::empty()),
        ) =~= Seq::<PrayerTimeView>::empty());
    } else {
        lemma_empty_enabled_no_events(instants.drop_last(), now, play_sound);
        assert(!qualifies(instants.last(), now, Seq::<Seq<char>>::empty()));
    }
    assert(events_spec(instants, now, Seq::empty(), play_sound) =~= Seq::<
        ReminderEventView,
    >::empty());
}

fn name_enabled(enabled: &Vec<String>, name: &String) -> (r: bool)
    ensures
        r == strings_views(enabled@).contains(name@),
{
    let mut i: usize = 0;
    while i < enabled.len()
        invariant
            i <= enabled.len(),
            forall|k: int| 0 <= k < i ==> strings_views(enabled@)[k] != name@,
        decreases enabled.len() - i,
    {
        let same = crate::text::string_eq_str(&enabled[i], name.as_str());
        if same {
            proof {
                assert(strings_views(enabled@)[i as int] == name@);
            }
            return true;
        }
        i = i + 1;
    }
    false
}

fn in_window_x(now: i64, t: i64) -> (r: bool)
    ensures
        r == in_window(now as int, t as int),
{
    now <= t && (t as i128) < (now as i128) + 60
}

fn make_reminder(p: &PrayerTime, play_sound: bool) -> (ev: ReminderEvent)
    ensures
        ev@ == reminder_for(p@, play_sound),
{
    let mut title = String::new();
    title.append("Prayer Time: ");
    title.append(p.name.as_str());
    let mut body = String::new();
    body.append("It's time for ");
    body.append(p.name.as_str());
    body.append(" prayer at ");
    body.append(p.time.as_str());
    ReminderEvent { title, body, should_play_sound: play_sound }
}

/// Decides which reminders fire now: exactly the prayer instants whose
/// name is enabled and whose instant lies in `[now, now + 60)`, in their
/// given order, each as its reminder carrying the sound preference.
pub fn evaluate(
    now: i64,
    prayer_times: &Vec<PrayerTime>,
    enabled: &Vec<String>,
    play_sound: bool,
) -> (events: Vec<ReminderEvent>)
    ensures
        ev_views(events@) == events_spec(
            pt_views(prayer_times@),
            now as int,
            strings_views(enabled@),
            play_sound,
        ),
{
    let ghost pts = pt_views(prayer_times@);
    let ghost en = strings_views(enabled@);
    let ghost q = |p: PrayerTimeView| qualifies(p, now as int, en);
    let ghost f = |p: PrayerTimeView| reminder_for(p, play_sound);
    let mut events: Vec<ReminderEvent> = Vec::new();
    proof {
        reveal(Seq::filter);
        assert(pts.subrange(0, 0) =~= Seq::<PrayerTimeView>::empty());
        assert(ev_views(events@) =~= pts.subrange(0, 0).filter(q).map_values(f));
    }
    let mut i: usize = 0;
    while i < prayer_times.len()
        invariant
            i <= prayer_times.len(),
            pts == pt_views(prayer_times@),
            en == strings_views(enabled@),
            q == (|p: PrayerTimeView| qualifies(p, now as int, en)),
            f == (|p: PrayerTimeView| reminder_for(p, play_sound)),
            ev_views(events@) == pts.subrange(0, i as int).filter(q).map_values(f),
        decreases prayer_times.len() - i,
    {
        let ghost prefix = pts.subrange(0, i as int);
        let p = &prayer_times[i];
        let fires = name_enabled(enabled, &p.name) && in_window_x(now, p.datetime);
        if fires {
            let ghost old_events = events@;
            let ev = make_reminder(p, play_sound);
            events.push(ev);
            proof {
                assert(ev_views(events@) =~= ev_views(old_events).push(ev@));
            }
        }
        i = i + 1;
        proof {
            reveal(Seq::filter);
            let prefix2 = pts.subrange(0, i as int);
            assert(prefix2.drop_last() =~= prefix);
            assert(prefix2.last() == pts[i - 1]);
            assert(q(pts[i - 1]) == fires);
            if fires {
                assert(prefix2.filter(q) == prefix.filter(q).push(pts[i - 1]));
                assert(prefix.filter(q).push(pts[i - 1]).map_values(f) =~= prefix.filter(
                    q,
                ).map_values(f).push(f(pts[i - 1])));
            } else {
                assert(prefix2.filter(q) == prefix.filter(q));
            }
        }
    }
    proof {
        assert(pts.subrange(0, prayer_times@.len() as int) =~= pts);
    }
    events
}

/// What one evaluation cycle decided: the reminders to dispatch, or the
/// error to log before waiting for the next tick.
#[derive(Debug)]
pub enum CycleOutcome {
    /// The reminders that fire now; dispatch each (the window show, the
    /// notification, and the sound when asked for).
    Fired(Vec<ReminderEvent>),
    /// This cycle obtained no usable instants; log and wait for the next
    /// tick.  Never fatal.
    Skipped(PrayerFetchError),
}

/// Drives the decisions of one evaluation cycle after the transport ran:
/// a transport failure is logged and skipped; otherwise the body is
/// parsed and anchored in `tz` on the date `y`-`m`-`d`, a failure of
/// that is logged and skipped, and the prayers that came through are
/// evaluated at `now` under the settings' filter and sound preference.
/// Every outcome is a value; no cycle aborts the loop.
pub fn run_cycle(
    fetched: Result<String, String>,
    tz: &str,
    y: u32,
    m: u32,
    d: u32,
    now: i64,
    settings: &AppSettings,
) -> (r: CycleOutcome)
    requires
        valid_date(y as int, m as int, d as int),
        y < 10000,
    ensures
        match r {
            CycleOutcome::Fired(events) => {
                &&& fetched matches Ok(body)
                &&& parsed_response(body@) matches Some(p)
                &&& is_iana_tz(tz@)
                &&& instants_from(p.0, tz@, y as int, m as int, d as int, 0) matches Ok(v)
                &&& ev_views(events@) == events_spec(
                    v,
                    now as int,
                    settings@.enabled_prayers,
                    settings@.play_sound,
                )
            },
            CycleOutcome::Skipped(e) => match e {
                PrayerFetchError::Fetch(msg) => fetched matches Err(cause) && msg@ == cause@,
                PrayerFetchError::Parse => fetched matches Ok(body) && parsed_response(
                    body@,
                ) is None,
                PrayerFetchError::InvalidTimezone(t) => fetched matches Ok(body) && t@ == tz@
                    && !is_iana_tz(tz@) && parsed_response(body@) is Some,
                PrayerFetchError::Timezone(n) => {
                    &&& fetched matches Ok(body)
                    &&& parsed_response(body@) matches Some(p)
                    &&& is_iana_tz(tz@)
                    &&& instants_from(p.0, tz@, y as int, m as int, d as int, 0) == Err::<
                        Seq<PrayerTimeView>,
                        _,
                    >(n@)
                },
            },
        },
{
    let body = match fetched {
        Ok(body) => body,
        Err(cause) => {
            return CycleOutcome::Skipped(PrayerFetchError::Fetch(cause));
        },
    };
    match prayer_times_from_body(body.as_str(), tz, y, m, d) {
        Ok(prayer_times) => {
            let events = evaluate(now, &prayer_times, &settings.enabled_prayers,
                settings.play_sound);
            CycleOutcome::Fired(events)
        },
        Err(e) => CycleOutcome::Skipped(e),
    }
}

} // verus!
