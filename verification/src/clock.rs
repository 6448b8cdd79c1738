//! Instants, time zones and schedule resolution.
//!
//! An instant is a count of seconds since the Unix epoch. Schedules are
//! cron expressions with a leading seconds field; the `cron` crate parses
//! and walks them, `chrono` and `chrono-tz` supply the calendar.

use chrono::Datelike;
use chrono::TimeZone;
use chrono::Timelike;
use std::str::FromStr;
use vstd::prelude::*;

verus! {

/// The earliest instant the library works with.
pub const MIN_INSTANT: i64 = -4_398_046_511_104;

/// The latest instant the library works with.
pub const MAX_INSTANT: i64 = 4_398_046_511_104;

/// Instants in this range, about 139 000 years either side of the epoch,
/// stay inside what `chrono` can represent in any zone, also after a
/// day has been added.
pub open spec fn is_instant(t: int) -> bool {
    MIN_INSTANT <= t <= MAX_INSTANT
}

/// Seconds in a day.
pub const DAY: i64 = 86_400;

/// The zone a schedule is read in.
#[derive(Clone, Debug, PartialEq, Eq)]
pub enum Zone {
    /// The zone of the machine the program runs on.
    Local,
    /// A zone of the IANA database, by name.
    Named(String),
}

impl View for Zone {
    type V = Option<Seq<char>>;

    open spec fn view(&self) -> Option<Seq<char>> {
        match self {
            Zone::Local => None,
            Zone::Named(name) => Some(name@),
        }
    }
}

impl Zone {
    /// A named zone must be one that `chrono-tz` knows.
    pub open spec fn wf(&self) -> bool {
        self matches Zone::Named(name) ==> zone_known(name@)
    }

    /// The zone of that name, if `chrono-tz` knows one.
    pub fn named(name: &str) -> (zone: Option<Zone>)
        ensures
            zone is Some <==> zone_known(name@),
            zone matches Some(z) ==> z@ == Some(name@) && z.wf(),
    {
        if zone_parses(name) {
            Some(Zone::Named(name.to_owned()))
        } else {
            None
        }
    }

    /// A copy of the zone.
    pub fn duplicate(&self) -> (zone: Zone)
        ensures
            zone == *self,
    {
        match self {
            Zone::Local => Zone::Local,
            Zone::Named(name) => Zone::Named(name.clone()),
        }
    }
}

/// Whether `cron::Schedule::from_str` accepts the expression.
pub uninterp spec fn cron_accepts(expr: Seq<char>) -> bool;

/// Whether `chrono_tz::Tz::from_str` accepts the name.
pub uninterp spec fn zone_known(name: Seq<char>) -> bool;

/// The first two instants that the schedule `expr`, read in the zone `zone`,
/// yields from `cron::Schedule::after` when started at `after`.
pub uninterp spec fn cron_upcoming(expr: Seq<char>, zone: Seq<char>, after: i64) -> (
    Option<i64>,
    Option<i64>,
);

/// Calls `cron::Schedule::from_str` and reports whether it returned `Ok`.
#[verifier::external_body]
pub(crate) fn schedule_parses(expr: &str) -> (ok: bool)
    ensures
        ok == cron_accepts(expr@),
{
    cron::Schedule::from_str(expr).is_ok()
}

/// Calls `chrono_tz::Tz::from_str` and reports whether it returned `Ok`.
#[verifier::external_body]
pub(crate) fn zone_parses(name: &str) -> (ok: bool)
    ensures
        ok == zone_known(name@),
{
    chrono_tz::Tz::from_str(name).is_ok()
}

/// Calls `cron::Schedule::after` on the parsed expression, started at the
/// instant `after` in the named zone, and takes the first two items of the
/// iterator as instants. The contract only names the pair.
#[verifier::external_body]
pub(crate) fn upcoming_in_zone(expr: &str, zone: &str, after: i64) -> (upcoming: (
    Option<i64>,
    Option<i64>,
))
    requires
        cron_accepts(expr@),
        zone_known(zone@),
        is_instant(after as int),
    ensures
        upcoming == cron_upcoming(expr@, zone@, after),
{
    let schedule = cron::Schedule::from_str(expr).unwrap();
    let tz = chrono_tz::Tz::from_str(zone).unwrap();
    let start = tz.timestamp_opt(after, 0).unwrap();
    let mut following = schedule.after(&start);
    let first = following.next().map(|t| t.timestamp());
    let second = following.next().map(|t| t.timestamp());
    (first, second)
}

/// The same call as `upcoming_in_zone`, in the zone of the machine
/// (`chrono::Local`). What comes back depends on how the machine is set up,
/// so nothing is claimed of it.
#[verifier::external_body]
pub(crate) fn upcoming_in_local_zone(expr: &str, after: i64) -> (upcoming: (
    Option<i64>,
    Option<i64>,
))
    requires
        cron_accepts(expr@),
        is_instant(after as int),
{
    let schedule = cron::Schedule::from_str(expr).unwrap();
    let start = chrono::Local.timestamp_opt(after, 0).unwrap();
    let mut following = schedule.after(&start);
    let first = following.next().map(|t| t.timestamp());
    let second = following.next().map(|t| t.timestamp());
    (first, second)
}

/// The first of the two instants that lies strictly after `after`.
///
/// Where clocks are set back a local time occurs twice and a schedule yields
/// both readings, the earlier first; the earlier one may not lie after
/// `after`, the later one then does.
pub open spec fn first_after(upcoming: (Option<i64>, Option<i64>), after: i64) -> Option<i64> {
    if upcoming.0 is Some && upcoming.0->0 > after {
        upcoming.0
    } else if upcoming.1 is Some && upcoming.1->0 > after {
        upcoming.1
    } else {
        None
    }
}

/// Picks the first of two upcoming instants that lies strictly after `after`.
pub fn earliest_after(upcoming: (Option<i64>, Option<i64>), after: i64) -> (next: Option<i64>)
    ensures
        next == first_after(upcoming, after),
{
    match upcoming.0 {
        Some(t) if t > after => { return Some(t); },
        _ => {},
    }
    match upcoming.1 {
        Some(t) if t > after => Some(t),
        _ => None,
    }
}

/// `next` is the next occurrence of `expr` in `zone` after `after`, `None`
/// standing for a schedule that has expired.
///
/// In a named zone this is fixed by the expression, the zone and `after`.
/// In the local zone the machine decides; all that holds of every outcome is
/// that an occurrence lies strictly after `after`.
pub open spec fn resolves(
    expr: Seq<char>,
    zone: Option<Seq<char>>,
    after: i64,
    next: Option<i64>,
) -> bool {
    match zone {
        Some(name) => next == first_after(cron_upcoming(expr, name, after), after),
        None => next is Some ==> next->0 > after,
    }
}

/// The next occurrence of the schedule `expr` strictly after `after`, in
/// `zone`; `None` when the schedule has expired.
pub fn next_occurrence(expr: &str, zone: &Zone, after: i64) -> (next: Option<i64>)
    requires
        cron_accepts(expr@),
        zone.wf(),
        is_instant(after as int),
    ensures
        resolves(expr@, zone@, after, next),
{
    let upcoming = match zone {
        Zone::Local => upcoming_in_local_zone(expr, after),
        Zone::Named(name) => upcoming_in_zone(expr, name.as_str(), after),
    };
    earliest_after(upcoming, after)
}

/// A date and a time of day, as a calendar and a clock show them.
#[derive(Clone, Copy, Debug, PartialEq, Eq, Structural)]
pub struct Civil {
    pub year: i32,
    pub month: u32,
    pub day: u32,
    pub hour: u32,
    pub minute: u32,
    pub second: u32,
}

/// What calendar and clock show in the named zone at the instant `at`,
/// as `chrono` and `chrono-tz` work it out.
pub uninterp spec fn zone_civil(zone: Seq<char>, at: i64) -> Civil;

/// Turns the instant into a `chrono::DateTime` of the named zone with
/// `TimeZone::timestamp_opt` and reads its fields with the methods of
/// `Datelike` and `Timelike`. The contract only names the result.
#[verifier::external_body]
pub(crate) fn civil_in_zone(zone: &str, at: i64) -> (civil: Civil)
    requires
        zone_known(zone@),
        is_instant(at as int),
    ensures
        civil == zone_civil(zone@, at),
{
    let tz = chrono_tz::Tz::from_str(zone).unwrap();
    let t = tz.timestamp_opt(at, 0).unwrap();
    Civil {
        year: t.year(),
        month: t.month(),
        day: t.day(),
        hour: t.hour(),
        minute: t.minute(),
        second: t.second(),
    }
}

/// The same as `civil_in_zone`, in the zone of the machine (`chrono::Local`).
/// What comes back depends on how the machine is set up, so nothing is
/// claimed of it.
#[verifier::external_body]
pub(crate) fn civil_in_local_zone(at: i64) -> (civil: Civil)
    requires
        is_instant(at as int),
{
    let t = chrono::Local.timestamp_opt(at, 0).unwrap();
    Civil {
        year: t.year(),
        month: t.month(),
        day: t.day(),
        hour: t.hour(),
        minute: t.minute(),
        second: t.second(),
    }
}

/// `civil` is what calendar and clock show in `zone` at the instant `at`.
///
/// In a named zone this is fixed by the zone and the instant. In the local
/// zone the machine decides, and nothing holds of every outcome.
pub open spec fn shows(zone: Option<Seq<char>>, at: i64, civil: Civil) -> bool {
    match zone {
        Some(name) => civil == zone_civil(name, at),
        None => true,
    }
}

/// What calendar and clock show in `zone` at the instant `at`.
pub fn civil_at(zone: &Zone, at: i64) -> (civil: Civil)
    requires
        zone.wf(),
        is_instant(at as int),
    ensures
        shows(zone@, at, civil),
{
    match zone {
        Zone::Local => civil_in_local_zone(at),
        Zone::Named(name) => civil_in_zone(name.as_str(), at),
    }
}

/// The instant `at` as date, time of day and offset from UTC in the named
/// zone, in the form `2019-11-29 09:30+08:00`, as `chrono` writes it.
pub uninterp spec fn zone_time_text(zone: Seq<char>, at: i64) -> Seq<char>;

/// Turns the instant into a `chrono::DateTime` of the named zone and calls
/// `DateTime::format` with the pattern `%F %R%:z`. The contract only names
/// the text.
#[verifier::external_body]
pub(crate) fn format_in_zone(zone: &str, at: i64) -> (text: String)
    requires
        zone_known(zone@),
        is_instant(at as int),
    ensures
        text@ == zone_time_text(zone@, at),
{
    let tz = chrono_tz::Tz::from_str(zone).unwrap();
    tz.timestamp_opt(at, 0).unwrap().format("%F %R%:z").to_string()
}

/// The same as `format_in_zone`, in the zone of the machine
/// (`chrono::Local`). What comes back depends on how the machine is set up,
/// so nothing is claimed of it.
#[verifier::external_body]
pub(crate) fn format_in_local_zone(at: i64) -> (text: String)
    requires
        is_instant(at as int),
{
    chrono::Local.timestamp_opt(at, 0).unwrap().format("%F %R%:z").to_string()
}

/// What the zone of the machine is called at the instant `at`: calls
/// `DateTime::format` with the pattern `%Z` on a `chrono::DateTime` of
/// `chrono::Local`. Nothing is claimed of the text.
#[verifier::external_body]
pub(crate) fn local_zone_label(at: i64) -> (text: String)
    requires
        is_instant(at as int),
{
    chrono::Local.timestamp_opt(at, 0).unwrap().format("%Z").to_string()
}

/// Occurrences advance: an occurrence lies strictly after the instant it
/// was asked from, and asking again from that occurrence gives either a
/// strictly later one or none at all (the schedule has expired).
pub proof fn lemma_occurrences_advance(
    expr: Seq<char>,
    zone: Option<Seq<char>>,
    after: i64,
    first: Option<i64>,
    second: Option<i64>,
)
    requires
        resolves(expr, zone, after, first),
        first is Some,
        resolves(expr, zone, first->0, second),
    ensures
        first->0 > after,
        second is Some ==> second->0 > first->0,
{
}

} // verus!
