use hyper_bed_caller::clock::Zone;
use hyper_bed_caller::handler::handle_call;
use hyper_bed_caller::handler::read_word;
use hyper_bed_caller::handler::with_alarm_id;
use hyper_bed_caller::handler::CallPhase;
use hyper_bed_caller::handler::Word;
use hyper_bed_caller::lifecycle::AlarmCommand;
use hyper_bed_caller::reply::Action;
use hyper_bed_caller::reply::Refusal;
use hyper_bed_caller::reply::Reply;
use hyper_bed_caller::store::Alarm;
use hyper_bed_caller::store::Phase;
use hyper_bed_caller::store::State;
use hyper_bed_caller::store::Store;

const USER: i64 = 42;
const GROUP: i64 = -1001;
const EIGHT: i64 = 1705305600; // 2024-01-15 08:00:00 UTC
const HALF_PAST_NINE: i64 = 1705311000; // 2024-01-15 09:30:00 UTC

fn empty_store() -> Store {
    let mut state = State::new();
    state.timezone.insert(USER, String::from("UTC"));
    Store::new("store.json", state).expect("a state the library accepts")
}

fn store_with(alarms: Vec<Alarm>) -> Store {
    let mut state = State::new();
    state.timezone.insert(USER, String::from("UTC"));
    state.alarms.insert(USER, alarms);
    Store::new("store.json", state).expect("a state the library accepts")
}

fn daily(title: &str, strict: bool) -> Alarm {
    Alarm::new(USER, USER, "0 30 9 * * *", title, strict)
}

fn say(store: &mut Store, chat: i64, text: &str, now: i64) -> (Option<Reply>, Vec<Action>, bool) {
    let outcome = store.on_text(chat, USER, 11, text, "caller", now);
    let mut actions = outcome.actions;
    if actions.is_empty() {
        return (None, actions, outcome.save);
    }
    match actions.remove(0) {
        Action::SendText { chat_id, reply, reply_to } => {
            assert_eq!(chat_id, chat);
            assert_eq!(reply_to, Some(11));
            (Some(reply), actions, outcome.save)
        }
        other => panic!("unexpected action {:?}", other),
    }
}

fn alarms_of(store: &Store) -> Vec<Alarm> {
    store.state().alarms.get(&USER).cloned().unwrap_or_default()
}

#[test]
fn words() {
    assert_eq!(read_word("#help"), Word::Help);
    assert_eq!(read_word("#timezone"), Word::Timezone);
    assert_eq!(read_word("#alarm"), Word::Alarm);
    assert_eq!(read_word("#alarm!"), Word::AlarmStrict);
    assert_eq!(read_word("#list"), Word::List);
    assert_eq!(read_word("#disalarm"), Word::Disalarm);
    assert_eq!(read_word("#disable"), Word::Disable);
    assert_eq!(read_word("#enable"), Word::Enable);
    assert_eq!(read_word("#strict"), Word::Strict);
    assert_eq!(read_word("#next"), Word::Next);
    assert_eq!(read_word("#purge"), Word::Purge);
    assert_eq!(read_word("#sleep"), Word::Sleep);
    assert_eq!(read_word("#sleep!"), Word::SleepNow);
    assert_eq!(read_word("#Help"), Word::Unknown);
    assert_eq!(read_word("help"), Word::Unknown);
    assert_eq!(read_word(""), Word::Unknown);
}

#[test]
fn help_is_given() {
    let mut store = empty_store();
    for text in ["/help", "/help@caller", "#help", "#help  ", "#help me"] {
        let (reply, rest, save) = say(&mut store, USER, text, EIGHT);
        assert_eq!(reply, Some(Reply::Help), "{:?}", text);
        assert!(rest.is_empty());
        assert!(!save);
    }
    // for another account, unknown commands, and what does not start with `#`: silence
    for text in ["/help@other", "#unknown", "#", "hello", "", "  #help"] {
        let (reply, rest, save) = say(&mut store, USER, text, EIGHT);
        assert_eq!(reply, None, "{:?}", text);
        assert!(rest.is_empty());
        assert!(!save);
    }
    let (reply, _, _) = say(&mut store, USER, "#sleep", EIGHT);
    assert_eq!(reply, Some(Reply::Refused(Refusal::SleepNeedsBang)));
}

#[test]
fn setting_alarms() {
    let mut store = empty_store();
    let utc = Zone::Named(String::from("UTC"));
    let (reply, rest, save) = say(&mut store, GROUP, "#alarm 9:30 #rise", EIGHT);
    assert_eq!(
        reply,
        Some(Reply::AlarmSet {
            title: String::from("#rise"),
            next: Some(HALF_PAST_NINE),
            zone: utc.clone()
        })
    );
    assert!(rest.is_empty());
    assert!(save);
    let (reply, _, _) = say(&mut store, USER, "#alarm! 30 9 * * Mon-Fri", EIGHT);
    assert_eq!(
        reply,
        Some(Reply::AlarmSet { title: String::new(), next: Some(HALF_PAST_NINE), zone: utc.clone() })
    );
    // an alarm for a day that has passed is set all the same
    let (reply, _, _) = say(&mut store, USER, "#alarm 30 9 15 1 * 2020", EIGHT);
    assert_eq!(reply, Some(Reply::AlarmSet { title: String::new(), next: None, zone: utc }));
    let alarms = alarms_of(&store);
    assert_eq!(alarms.len(), 3);
    assert_eq!(
        alarms[0],
        Alarm::new(USER, GROUP, "0 30 9 15 1 * 2024", "#rise", false)
    );
    assert_eq!(alarms[1], Alarm::new(USER, USER, "0 30 9 * * Mon-Fri", "", true));
    assert_eq!(alarms[2], Alarm::new(USER, USER, "0 30 9 15 1 * 2020", "", false));

    for bad in ["#alarm", "#alarm 25:00", "#alarm every day", "#alarm! 9:30 Someday"] {
        let (reply, _, save) = say(&mut store, USER, bad, EIGHT);
        assert_eq!(reply, Some(Reply::Refused(Refusal::BadExpression)), "{:?}", bad);
        assert!(!save);
    }
    assert_eq!(alarms_of(&store).len(), 3);
}

#[test]
fn commands_by_number_in_a_message() {
    let mut store = store_with(vec![daily("#a", false), daily("#b", true)]);
    for bad in ["#disable", "#disable x", "#disable -1", "#enable 1.5", "#strict 0x1"] {
        let (reply, _, save) = say(&mut store, USER, bad, EIGHT);
        assert_eq!(reply, Some(Reply::Refused(Refusal::BadIndex)), "{:?}", bad);
        assert!(!save);
    }
    let (reply, _, save) = say(&mut store, USER, "#disable 2", EIGHT);
    assert_eq!(reply, Some(Reply::Refused(Refusal::NoSuchAlarm)));
    assert!(save);
    let (reply, _, _) = say(&mut store, USER, "#disalarm 99999999999999999999999999", EIGHT);
    assert_eq!(reply, Some(Reply::Refused(Refusal::BadIndex)));

    let (reply, _, _) = say(&mut store, USER, "#disable 1", EIGHT);
    assert_eq!(reply, Some(Reply::Disabled { title: String::from("#b") }));
    assert!(alarms_of(&store)[1].is_disabled);
    let (reply, _, _) = say(&mut store, USER, "#enable +1", EIGHT);
    assert_eq!(reply, Some(Reply::Enabled { title: String::from("#b") }));
    let (reply, _, _) = say(&mut store, USER, "#strict 0", EIGHT);
    assert_eq!(reply, Some(Reply::StrictOn { id: 0, title: String::from("#a") }));
    let (reply, _, _) = say(&mut store, USER, "#disalarm 0", EIGHT);
    assert_eq!(reply, Some(Reply::Removed));
    assert_eq!(alarms_of(&store), vec![daily("#b", true)]);

    let mut nobody = empty_store();
    let (reply, _, _) = say(&mut nobody, USER, "#disable 0", EIGHT);
    assert_eq!(reply, Some(Reply::Refused(Refusal::NoSuchAlarm)));
    let mut state = State::new();
    assert_eq!(
        with_alarm_id(&mut state, USER, "0", AlarmCommand::Remove),
        Reply::Refused(Refusal::NoSuchAlarm)
    );
}

#[test]
fn strict_alarm_cannot_be_removed_while_it_runs() {
    let running = Alarm { is_informing: true, ..daily("", true) };
    let mut store = store_with(vec![running.clone()]);
    let (reply, _, _) = say(&mut store, USER, "#disalarm 0", EIGHT);
    assert_eq!(reply, Some(Reply::RemoveRefused));
    let (reply, _, _) = say(&mut store, USER, "#disable 0", EIGHT);
    assert_eq!(reply, Some(Reply::DisableRefused));
    let (reply, _, _) = say(&mut store, USER, "#strict 0", EIGHT);
    assert_eq!(reply, Some(Reply::StrictRefused));
    let (reply, _, _) = say(&mut store, USER, "#disalarm", EIGHT);
    assert_eq!(reply, Some(Reply::RemoveRefused));
    assert_eq!(alarms_of(&store), vec![running]);
}

#[test]
fn zone_is_told_and_set() {
    let mut store = Store::new("store.json", State::new()).expect("an empty state");
    let (reply, _, save) = say(&mut store, USER, "#timezone", EIGHT);
    assert_eq!(reply, Some(Reply::ZoneIs { zone: Zone::Local, now: EIGHT }));
    assert!(!save);
    let (reply, _, save) = say(&mut store, USER, "#timezone Mars/Olympus", EIGHT);
    assert_eq!(reply, Some(Reply::Refused(Refusal::UnknownZone)));
    assert!(save);
    assert!(store.state().timezone.is_empty());
    let (reply, _, save) = say(&mut store, USER, "#timezone Asia/Shanghai", EIGHT);
    assert_eq!(reply, Some(Reply::ZoneSet { name: String::from("Asia/Shanghai") }));
    assert!(save);
    assert_eq!(store.state().timezone.get(&USER), Some(&String::from("Asia/Shanghai")));
    let (reply, _, _) = say(&mut store, USER, "#timezone", EIGHT);
    assert_eq!(
        reply,
        Some(Reply::ZoneIs { zone: Zone::Named(String::from("Asia/Shanghai")), now: EIGHT })
    );
    // schedules are now read in the new zone
    let (reply, _, _) = say(&mut store, USER, "#alarm 30 9 * * *", EIGHT);
    match reply {
        Some(Reply::AlarmSet { next, .. }) => assert_eq!(next, Some(HALF_PAST_NINE + 16 * 3600)),
        other => panic!("unexpected reply {:?}", other),
    }
}

#[test]
fn next_list_and_purge() {
    let mut nobody = empty_store();
    assert_eq!(say(&mut nobody, USER, "#next", EIGHT).0, None);
    assert_eq!(say(&mut nobody, USER, "#list", EIGHT).0, Some(Reply::Refused(Refusal::NoAlarmsYet)));
    assert_eq!(say(&mut nobody, USER, "#purge", EIGHT).0, Some(Reply::NoAlarms));
    assert_eq!(
        say(&mut nobody, USER, "#disalarm", EIGHT).0,
        Some(Reply::Refused(Refusal::NoAlarmsYet))
    );

    let gone = Alarm::new(USER, USER, "0 30 9 15 1 * 2020", "#gone", false);
    let held = Alarm { is_informing: true, ..gone.clone() };
    let mut store = store_with(vec![gone, daily("#a", false), held.clone()]);
    let utc = Zone::Named(String::from("UTC"));
    assert_eq!(
        say(&mut store, USER, "#next", EIGHT).0,
        Some(Reply::Next { at: HALF_PAST_NINE, zone: utc, title: String::from("#a") })
    );
    assert_eq!(say(&mut store, GROUP, "#next", EIGHT).0, Some(Reply::GroupNothingUpcoming));
    match say(&mut store, USER, "#list", EIGHT).0 {
        Some(Reply::Listing { entries, total }) => {
            assert_eq!(total, 3);
            let expired: Vec<bool> = entries.iter().map(|e| e.expired).collect();
            assert_eq!(expired, vec![true, false, false]);
            let informing: Vec<bool> = entries.iter().map(|e| e.informing).collect();
            assert_eq!(informing, vec![false, false, true]);
        }
        other => panic!("unexpected reply {:?}", other),
    }
    let (reply, _, save) = say(&mut store, USER, "#purge", EIGHT);
    assert_eq!(reply, Some(Reply::Purged { count: 1 }));
    assert!(save);
    assert_eq!(alarms_of(&store), vec![daily("#a", false), held]);
    let (reply, _, save) = say(&mut store, USER, "#purge", EIGHT);
    assert_eq!(reply, Some(Reply::NothingExpired));
    assert!(!save);
}

#[test]
fn sleep_mutes_until_an_alarm_is_resolved() {
    let mut store = store_with(vec![daily("", false), daily("", true)]);
    let (reply, rest, save) = say(&mut store, GROUP, "#sleep!", EIGHT);
    assert_eq!(reply, Some(Reply::Goodnight));
    assert_eq!(rest, vec![Action::RestrictMember { chat_id: GROUP, user_id: USER }]);
    assert!(save);
    say(&mut store, -5, "#sleep!", EIGHT);
    assert_eq!(store.state().sleeping.get(&USER), Some(&vec![GROUP, -5]));

    assert_eq!(store.tick(EIGHT, HALF_PAST_NINE).len(), 2);
    let outcome = store.on_call(USER, 1, CallPhase::ExchangingKeys, true);
    assert!(outcome.save);
    assert_eq!(outcome.actions.len(), 3);
    assert!(matches!(
        &outcome.actions[0],
        Action::SendText { chat_id: USER, reply: Reply::Challenge { .. }, reply_to: None }
    ));
    assert_eq!(outcome.actions[1], Action::RestoreMember { chat_id: GROUP, user_id: USER });
    assert_eq!(outcome.actions[2], Action::RestoreMember { chat_id: -5, user_id: USER });
    assert_eq!(store.state().sleeping.get(&USER), Some(&vec![]));
    let alarms = alarms_of(&store);
    assert_eq!(alarms[0].phase(), Phase::Idle);
    assert_eq!(alarms[1].phase(), Phase::AwaitingChallenge);
}

#[test]
fn typed_answer_disarms_a_strict_alarm() {
    let mut store = store_with(vec![daily("#up", true)]);
    say(&mut store, GROUP, "#sleep!", EIGHT);
    store.tick(EIGHT, HALF_PAST_NINE);
    store.on_call(USER, 1, CallPhase::ExchangingKeys, true);
    let answer = alarms_of(&store)[0].strict_challenge.clone();
    assert_eq!(answer.chars().count(), 30);
    let before = alarms_of(&store);

    let padded = format!("{} ", answer);
    for wrong in [padded.as_str(), "no idea", &answer[3..]] {
        let (reply, rest, save) = say(&mut store, USER, wrong, HALF_PAST_NINE + 5);
        assert_eq!(reply, None);
        assert!(rest.is_empty());
        assert!(!save);
        assert_eq!(alarms_of(&store), before);
    }
    let (reply, rest, save) = say(&mut store, USER, &answer, HALF_PAST_NINE + 9);
    assert_eq!(reply, Some(Reply::Disarmed { title: String::from("#up") }));
    assert_eq!(rest, vec![Action::RestoreMember { chat_id: GROUP, user_id: USER }]);
    assert!(save);
    assert_eq!(alarms_of(&store)[0].phase(), Phase::Idle);
}

#[test]
fn calls() {
    let mut store = store_with(vec![Alarm { chat_id: GROUP, ..daily("", false) }]);
    // a call that comes in is hung up on while it waits
    let outcome = store.on_call(7, 3, CallPhase::Pending, false);
    assert_eq!(outcome.actions, vec![Action::DiscardCall { call_id: 3 }]);
    assert!(!outcome.save);
    let outcome = store.on_call(7, 3, CallPhase::Discarded, false);
    assert!(outcome.actions.is_empty());
    assert!(!outcome.save);
    // news of a call to a user without alarms
    let outcome = store.on_call(7, 3, CallPhase::ExchangingKeys, true);
    assert!(outcome.actions.is_empty() && !outcome.save);
    let outcome = store.on_call(7, 3, CallPhase::Discarded, true);
    assert!(outcome.actions.is_empty() && !outcome.save);
    let outcome = store.on_call(USER, 3, CallPhase::Other, true);
    assert!(outcome.actions.is_empty() && outcome.save);

    store.tick(EIGHT, HALF_PAST_NINE);
    let outcome = store.on_call(USER, 4, CallPhase::Discarded, true);
    assert_eq!(
        outcome.actions,
        vec![Action::SendText {
            chat_id: GROUP,
            reply: Reply::WakeHelp { display_name: None, user_id: USER },
            reply_to: None,
        }]
    );
    let outcome = store.on_profile(USER, "Rika");
    assert!(outcome.save && outcome.actions.is_empty());
    assert_eq!(store.state().users.get(&USER), Some(&String::from("Rika")));
    store.tick(HALF_PAST_NINE, HALF_PAST_NINE + 300);
    let mut state = store.state().clone();
    let outcome = handle_call(&mut state, USER, 5, CallPhase::Discarded, true);
    assert_eq!(
        outcome.actions,
        vec![Action::SendText {
            chat_id: GROUP,
            reply: Reply::WakeHelp { display_name: Some(String::from("Rika")), user_id: USER },
            reply_to: None,
        }]
    );
}

#[test]
fn closing_a_retry_lifts_the_mute() {
    let mut store = store_with(vec![daily("#r", false)]);
    say(&mut store, GROUP, "#sleep!", EIGHT);
    store.tick(EIGHT, HALF_PAST_NINE);
    let (reply, _, _) = say(&mut store, USER, "#disalarm", HALF_PAST_NINE + 1);
    assert_eq!(reply, Some(Reply::StillRinging));
    store.on_call(USER, 4, CallPhase::Discarded, true);
    let (reply, rest, save) = say(&mut store, USER, "#disalarm", HALF_PAST_NINE + 2);
    assert_eq!(reply, Some(Reply::Closed { title: String::from("#r") }));
    assert_eq!(rest, vec![Action::RestoreMember { chat_id: GROUP, user_id: USER }]);
    assert!(save);
    assert_eq!(alarms_of(&store)[0].phase(), Phase::Idle);
}
