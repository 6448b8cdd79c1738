use hyper_bed_caller::alarm::get_next_schedule;
use hyper_bed_caller::alarm::Schedule;
use hyper_bed_caller::clock::civil_at;
use hyper_bed_caller::clock::earliest_after;
use hyper_bed_caller::clock::next_occurrence;
use hyper_bed_caller::clock::Civil;
use hyper_bed_caller::clock::Zone;
use hyper_bed_caller::fmt::time_text;
use hyper_bed_caller::fmt::zone_text;

const EIGHT: i64 = 1705305600; // 2024-01-15 08:00:00 UTC
const HALF_PAST_NINE: i64 = 1705311000; // 2024-01-15 09:30:00 UTC
const NEXT_DAY: i64 = 1705397400; // 2024-01-16 09:30:00 UTC

fn utc() -> Zone {
    Zone::Named(String::from("UTC"))
}

#[test]
fn next_occurrence_is_strictly_after() {
    let daily = "0 30 9 * * *";
    assert_eq!(next_occurrence(daily, &utc(), EIGHT), Some(HALF_PAST_NINE));
    assert_eq!(next_occurrence(daily, &utc(), HALF_PAST_NINE - 1), Some(HALF_PAST_NINE));
    // asked from an occurrence, the next one is a day later
    assert_eq!(next_occurrence(daily, &utc(), HALF_PAST_NINE), Some(NEXT_DAY));
}

#[test]
fn occurrences_keep_advancing() {
    let every_minute = "0 * * * * *";
    let mut after = EIGHT;
    for _ in 0..5 {
        let next = next_occurrence(every_minute, &utc(), after).expect("never expires");
        assert_eq!(next, after + 60);
        after = next;
    }
}

#[test]
fn pinned_occurrence_expires() {
    let pinned = "0 30 9 15 1 * 2024";
    assert_eq!(next_occurrence(pinned, &utc(), EIGHT), Some(HALF_PAST_NINE));
    assert_eq!(next_occurrence(pinned, &utc(), HALF_PAST_NINE), None);
    assert_eq!(next_occurrence("0 30 9 15 1 * 2020", &utc(), EIGHT), None);
}

#[test]
fn schedules_follow_the_zone() {
    let shanghai = Zone::Named(String::from("Asia/Shanghai"));
    // 09:30 in Shanghai is 01:30 UTC, which has passed at 08:00 UTC
    assert_eq!(
        next_occurrence("0 30 9 * * *", &shanghai, EIGHT),
        Some(NEXT_DAY - 8 * 3600)
    );
}

#[test]
fn repeated_hour_yields_the_reading_that_lies_ahead() {
    // On 2023-10-29 clocks in Berlin go back from 03:00 to 02:00: 02:30 comes twice.
    let berlin = Zone::Named(String::from("Europe/Berlin"));
    let first_half_past_two = 1698539400;
    let second_half_past_two = 1698543000;
    let at_half_past_two = "0 30 2 * * *";
    assert_eq!(
        next_occurrence(at_half_past_two, &berlin, 1698537600),
        Some(first_half_past_two)
    );
    assert_eq!(
        next_occurrence(at_half_past_two, &berlin, 1698541200),
        Some(second_half_past_two)
    );
    let next = next_occurrence(at_half_past_two, &berlin, second_half_past_two);
    assert_eq!(next, Some(second_half_past_two + 24 * 3600));
}

#[test]
fn earliest_after_picks_the_first_that_lies_ahead() {
    assert_eq!(earliest_after((Some(10), Some(20)), 5), Some(10));
    assert_eq!(earliest_after((Some(10), Some(20)), 10), Some(20));
    assert_eq!(earliest_after((Some(10), Some(20)), 20), None);
    assert_eq!(earliest_after((Some(10), None), 10), None);
    assert_eq!(earliest_after((None, None), 0), None);
    assert_eq!(earliest_after((Some(-5), None), -6), Some(-5));
}

#[test]
fn local_zone_occurrence_lies_ahead() {
    let next = next_occurrence("0 30 9 * * *", &Zone::Local, EIGHT).expect("a daily schedule");
    assert!(next > EIGHT);
    assert!(next <= EIGHT + 24 * 3600);
    assert_eq!(next % 60, 0);
}

#[test]
fn schedule_wraps_an_occurrence() {
    let found = get_next_schedule("0 30 9 * * *", &utc(), EIGHT);
    assert!(found.has_schedule());
    assert_eq!(found.to_timestamp(), HALF_PAST_NINE);
    assert_eq!(found.instant(), Some(HALF_PAST_NINE));
    assert_eq!(found.to_string(&utc()), Some(String::from("2024-01-15 09:30+00:00")));
    let none = get_next_schedule("0 30 9 15 1 * 2020", &utc(), EIGHT);
    assert!(!none.has_schedule());
    assert_eq!(none.to_timestamp(), -1);
    assert_eq!(none.to_string(&utc()), None);
    assert_eq!(Schedule::new(7).to_timestamp(), 7);
    assert_eq!(Schedule::default().to_timestamp(), -1);
}

#[test]
fn civil_time_follows_the_zone() {
    assert_eq!(
        civil_at(&utc(), EIGHT),
        Civil { year: 2024, month: 1, day: 15, hour: 8, minute: 0, second: 0 }
    );
    assert_eq!(
        civil_at(&Zone::Named(String::from("Asia/Shanghai")), EIGHT + 61),
        Civil { year: 2024, month: 1, day: 15, hour: 16, minute: 1, second: 1 }
    );
    let local = civil_at(&Zone::Local, EIGHT);
    assert!(local.year == 2024 && local.month == 1);
    assert!(local.day == 14 || local.day == 15 || local.day == 16);
}

#[test]
fn instants_are_shown_in_the_zone() {
    assert_eq!(time_text(&utc(), HALF_PAST_NINE), "2024-01-15 09:30+00:00");
    assert_eq!(
        time_text(&Zone::Named(String::from("Asia/Shanghai")), HALF_PAST_NINE),
        "2024-01-15 17:30+08:00"
    );
    // a zone that is not known, and an instant beyond the calendar: seconds
    assert_eq!(time_text(&Zone::Named(String::from("Nowhere/Land")), 90), "90");
    assert_eq!(time_text(&utc(), i64::MAX), "9223372036854775807");
    assert_eq!(time_text(&utc(), i64::MIN), "-9223372036854775808");
    let local = time_text(&Zone::Local, HALF_PAST_NINE);
    assert_eq!(local.len(), "2024-01-15 09:30+00:00".len());
    assert!(local.starts_with("2024-01-1"));
}

#[test]
fn zones_are_named() {
    assert_eq!(zone_text(&utc(), EIGHT), "UTC");
    assert!(!zone_text(&Zone::Local, EIGHT).is_empty());
    assert_eq!(zone_text(&Zone::Local, i64::MAX), "");
}
