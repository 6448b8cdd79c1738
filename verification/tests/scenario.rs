use hyper_bed_caller::cmd::test_cron;
use hyper_bed_caller::handler::CallPhase;
use hyper_bed_caller::reply::Action;
use hyper_bed_caller::reply::Refusal;
use hyper_bed_caller::reply::Reply;
use hyper_bed_caller::store::Alarm;
use hyper_bed_caller::store::Phase;
use hyper_bed_caller::store::State;
use hyper_bed_caller::store::Store;
use hyper_bed_caller::ticker::CronService;

const USER: i64 = 42;
const EIGHT: i64 = 1705305600; // 2024-01-15 08:00:00 UTC
const HALF_PAST_NINE: i64 = 1705311000; // 2024-01-15 09:30:00 UTC
const NEXT_DAY: i64 = 1705397400; // 2024-01-16 09:30:00 UTC

fn store_with(alarm: Alarm) -> Store {
    let mut state = State::new();
    state.timezone.insert(USER, String::from("UTC"));
    state.alarms.insert(USER, vec![alarm]);
    Store::new("store.json", state).expect("a state the library accepts")
}

fn daily(title: &str, strict: bool) -> Alarm {
    let cron = test_cron("30 9 * * *").expect("a valid expression");
    assert_eq!(cron, "0 30 9 * * *");
    Alarm::new(USER, USER, &cron, title, strict)
}

fn alarm_of(store: &Store) -> &Alarm {
    &store.state().alarms.get(&USER).expect("the user has alarms")[0]
}

#[test]
fn ring_decline_retry_answer() {
    let mut store = store_with(daily("", false));
    assert_eq!(alarm_of(&store).phase(), Phase::Idle);

    let actions = store.tick(EIGHT, HALF_PAST_NINE + 1);
    assert_eq!(actions, vec![Action::PlaceCall { user_id: USER }]);
    assert_eq!(alarm_of(&store).phase(), Phase::Ringing);
    assert!(alarm_of(&store).is_pending && alarm_of(&store).is_informing);
    assert_eq!(alarm_of(&store).reschedule, HALF_PAST_NINE + 1 + 300);

    let outcome = store.on_call(USER, 7, CallPhase::Discarded, true);
    assert!(outcome.save);
    assert!(outcome.actions.is_empty());
    assert!(!alarm_of(&store).is_pending);
    assert!(alarm_of(&store).is_informing);
    assert_eq!(alarm_of(&store).reschedule, HALF_PAST_NINE + 301);
    assert_eq!(alarm_of(&store).phase(), Phase::RetryWindow);

    // a tick before the retry is due does nothing
    let actions = store.tick(HALF_PAST_NINE + 1, HALF_PAST_NINE + 300);
    assert!(actions.is_empty());
    assert!(!alarm_of(&store).is_pending);

    let actions = store.tick(HALF_PAST_NINE + 300, HALF_PAST_NINE + 302);
    assert_eq!(actions, vec![Action::PlaceCall { user_id: USER }]);
    assert!(alarm_of(&store).is_pending);
    assert_eq!(alarm_of(&store).reschedule, HALF_PAST_NINE + 302 + 300);

    let outcome = store.on_call(USER, 8, CallPhase::ExchangingKeys, true);
    assert!(outcome.save);
    assert!(outcome.actions.is_empty());
    assert_eq!(alarm_of(&store).phase(), Phase::Idle);
}

#[test]
fn tick_window_is_half_open() {
    // due exactly at `now`: fires
    let mut store = store_with(daily("", false));
    assert_eq!(store.tick(HALF_PAST_NINE - 1, HALF_PAST_NINE).len(), 1);
    // due exactly at `last`: belongs to the tick before
    let mut store = store_with(daily("", false));
    assert!(store.tick(HALF_PAST_NINE, HALF_PAST_NINE + 1).is_empty());
    assert_eq!(alarm_of(&store).phase(), Phase::Idle);
    // not yet due
    let mut store = store_with(daily("", false));
    assert!(store.tick(EIGHT, HALF_PAST_NINE - 1).is_empty());
}

#[test]
fn a_title_is_sent_before_the_call() {
    let mut alarm = daily("#wake up", false);
    alarm.chat_id = -100;
    let mut store = store_with(alarm);
    let actions = store.tick(EIGHT, HALF_PAST_NINE);
    assert_eq!(
        actions,
        vec![
            Action::SendText {
                chat_id: -100,
                reply: Reply::Title { title: String::from("#wake up") },
                reply_to: None,
            },
            Action::PlaceCall { user_id: USER },
        ]
    );
}

#[test]
fn disabled_and_pending_alarms_are_skipped() {
    let mut alarm = daily("", false);
    alarm.is_disabled = true;
    let mut store = store_with(alarm);
    assert!(store.tick(EIGHT, HALF_PAST_NINE).is_empty());
    assert_eq!(alarm_of(&store).phase(), Phase::Idle);

    let mut alarm = daily("", false);
    alarm.is_pending = true;
    alarm.is_informing = true;
    alarm.reschedule = HALF_PAST_NINE;
    let mut store = store_with(alarm);
    assert!(store.tick(EIGHT, HALF_PAST_NINE).is_empty());
    assert_eq!(alarm_of(&store).reschedule, HALF_PAST_NINE);
}

#[test]
fn cancel_nearest_skips_one_occurrence() {
    let mut store = store_with(daily("", false));
    let now = HALF_PAST_NINE - 1800;
    let outcome = store.on_text(USER, USER, 5, "#disalarm", "caller", now);
    assert!(outcome.save);
    assert_eq!(outcome.actions.len(), 1);
    match &outcome.actions[0] {
        Action::SendText { chat_id, reply: Reply::Skipped { at, .. }, reply_to } => {
            assert_eq!(*chat_id, USER);
            assert_eq!(*at, HALF_PAST_NINE);
            assert_eq!(*reply_to, Some(5));
        }
        other => panic!("unexpected action {:?}", other),
    }
    assert!(alarm_of(&store).is_onceoff);

    // the tick at the due instant skips the alarm and uses the skip up
    let actions = store.tick(now, HALF_PAST_NINE);
    assert!(actions.is_empty());
    assert!(!alarm_of(&store).is_onceoff);
    assert_eq!(alarm_of(&store).phase(), Phase::Idle);

    // the occurrence after that fires
    let actions = store.tick(HALF_PAST_NINE, NEXT_DAY);
    assert_eq!(actions, vec![Action::PlaceCall { user_id: USER }]);
    assert_eq!(alarm_of(&store).phase(), Phase::Ringing);
}

#[test]
fn nothing_to_cancel_changes_nothing() {
    let mut store = store_with(daily("", false));
    let before = alarm_of(&store).clone();
    let outcome = store.on_text(USER, USER, 5, "#disalarm", "caller", EIGHT);
    assert_eq!(
        outcome.actions,
        vec![Action::SendText {
            chat_id: USER,
            reply: Reply::Refused(Refusal::NothingSoon),
            reply_to: Some(5),
        }]
    );
    assert_eq!(*alarm_of(&store), before);
}

#[test]
fn ticker_remembers_the_last_tick() {
    let mut store = store_with(daily("", false));
    let mut service = CronService::new(EIGHT);
    assert_eq!(service.last_tick(), EIGHT);
    assert!(service.tick(&mut store, HALF_PAST_NINE - 1).is_empty());
    assert_eq!(service.last_tick(), HALF_PAST_NINE - 1);
    assert_eq!(service.tick(&mut store, HALF_PAST_NINE).len(), 1);
    assert_eq!(service.last_tick(), HALF_PAST_NINE);
    assert!(service.tick(&mut store, HALF_PAST_NINE + 1).is_empty());
}
