//! What the events of the messaging side do to the state, and what is
//! asked of the messaging side in return.

use crate::alarm::all_resolve;
use crate::alarm::get_next_schedule;
use crate::alarm::resolve_alarms;
use crate::clock::cron_accepts;
use crate::clock::is_instant;
use crate::clock::resolves;
use crate::clock::shows;
use crate::clock::zone_known;
use crate::clock::zone_parses;
use crate::clock::Civil;
use crate::clock::DAY;
use crate::cmd::alarm_expr;
use crate::cmd::command_arg;
use crate::cmd::command_word;
use crate::cmd::parse_command_msg;
use crate::text::same_text;
use crate::cmd::args_read;
use crate::cmd::parse_alarm_args;
use crate::cmd::title_part;
use crate::cmd::with_seconds;
use crate::lifecycle::is_first_answered;
use crate::lifecycle::try_disarm;
use crate::lifecycle::answer_call;
use crate::lifecycle::apply_command;
use crate::lifecycle::cancel_effect;
use crate::lifecycle::cancel_nearest;
use crate::lifecycle::cancel_reply;
use crate::lifecycle::is_listing;
use crate::lifecycle::list_alarms;
use crate::lifecycle::next_alarm;
use crate::lifecycle::next_reply;
use crate::lifecycle::purge;
use crate::lifecycle::purge_reply;
use crate::lifecycle::purged;
use crate::lifecycle::command_effect;
use crate::lifecycle::command_reply;
use crate::lifecycle::AlarmCommand;
use crate::text::parse_index;
use crate::text::unsigned_of;
use crate::lifecycle::call_answered;
use crate::lifecycle::decline_actions_all;
use crate::lifecycle::decline_call;
use crate::lifecycle::declined_alarms;
use crate::lifecycle::is_resolved_by_answer;
use crate::reply::Action;
use crate::reply::Refusal;
use crate::reply::Reply;
use crate::store::alarms_wf;
use crate::store::Alarm;
use crate::store::State;
use crate::store::StateView;
use crate::store::Store;
use vstd::prelude::*;
use vstd::string::StrSliceExecFns;
use vstd::string::StringExecFns;

verus! {

broadcast use vstd::std_specs::hash::group_hash_axioms;

/// How far a call has got.
#[derive(Clone, Copy, Debug, PartialEq, Eq, Structural)]
pub enum CallPhase {
    /// The call waits to be picked up.
    Pending,
    /// The call was picked up.
    ExchangingKeys,
    /// The call was declined or has ended.
    Discarded,
    /// Any other stage.
    Other,
}

/// What an event leads to.
#[derive(Debug)]
pub struct Outcome {
    /// What the messaging side is asked to do, in this order.
    pub actions: Vec<Action>,
    /// Whether the state has to be written to disk.
    pub save: bool,
}

/// The state with the list `list` as the alarms of `user_id`.
pub open spec fn with_alarms(state: StateView, user_id: i64, list: Seq<Alarm>) -> StateView {
    StateView { alarms: state.alarms.insert(user_id, list), ..state }
}

/// The state once the user is no longer muted anywhere.
pub open spec fn unlocked(state: StateView, user_id: i64) -> StateView {
    if state.sleeping.contains_key(user_id) {
        StateView { sleeping: state.sleeping.insert(user_id, Seq::empty()), ..state }
    } else {
        state
    }
}

/// What gives the user the right to post back in each of `chats`.
pub open spec fn restore_actions(user_id: i64, chats: Seq<i64>) -> Seq<Action> {
    Seq::new(chats.len(), |i: int| Action::RestoreMember { chat_id: chats[i], user_id })
}

/// What gives the user the right to post back wherever the user is muted.
pub open spec fn unlock_actions(state: StateView, user_id: i64) -> Seq<Action> {
    if state.sleeping.contains_key(user_id) {
        restore_actions(user_id, state.sleeping[user_id])
    } else {
        Seq::empty()
    }
}

/// Lifts the mute of a user in every group where it is in force.
pub fn unlock_user(state: &mut State, user_id: i64, actions: &mut Vec<Action>)
    requires
        old(state).wf(),
    ensures
        final(state)@ == unlocked(old(state)@, user_id),
        final(actions)@ == old(actions)@ + unlock_actions(old(state)@, user_id),
        final(state).wf(),
{
    match state.sleeping.remove(&user_id) {
        None => {
            assert(state.sleeping@ =~= old(state).sleeping@);
        },
        Some(chats) => {
            let mut i: usize = 0;
            while i < chats.len()
                invariant
                    i <= chats.len(),
                    actions@ == old(actions)@ + restore_actions(user_id, chats@.take(i as int)),
                decreases chats.len() - i,
            {
                actions.push(Action::RestoreMember { chat_id: chats[i], user_id });
                assert(actions@ =~= old(actions)@ + restore_actions(
                    user_id,
                    chats@.take(i + 1),
                ));
                i += 1;
            }
            assert(chats@.take(i as int) =~= chats@);
            state.sleeping.insert(user_id, Vec::new());
            assert(final(state)@.sleeping =~= old(state)@.sleeping.insert(user_id, Seq::empty()));
        },
    }
    assert(final(state)@.sleeping =~= unlocked(old(state)@, user_id).sleeping);
}

/// Remembers the display name of a user.
pub fn note_user(state: &mut State, user_id: i64, name: &str) -> (outcome: Outcome)
    requires
        old(state).wf(),
    ensures
        final(state)@ == (StateView {
            users: old(state)@.users.insert(user_id, name@),
            ..old(state)@
        }),
        outcome.actions@.len() == 0,
        outcome.save,
        final(state).wf(),
{
    state.users.insert(user_id, name.to_owned());
    assert(final(state)@.users =~= old(state)@.users.insert(user_id, name@));
    Outcome { actions: Vec::new(), save: true }
}

/// The display name that is known of a user.
pub open spec fn known_name(state: State, user_id: i64) -> Option<String> {
    if state.users@.contains_key(user_id) {
        Some(state.users@[user_id])
    } else {
        None
    }
}

/// What an answered call does to the state and asks for: the user's alarms
/// change as `call_answered` says, and if an alarm was resolved, the mute of
/// the user is lifted.
pub open spec fn answered_outcome(
    before: State,
    user_id: i64,
    after: State,
    asked: Seq<Action>,
) -> bool {
    exists|list: Seq<Alarm>, sent: Seq<Action>|
        {
            &&& #[trigger] call_answered(user_id, before@.alarms[user_id], list, sent)
            &&& if exists|i: int| is_resolved_by_answer(before@.alarms[user_id], i) {
                &&& after@ == unlocked(with_alarms(before@, user_id, list), user_id)
                &&& asked == sent + unlock_actions(before@, user_id)
            } else {
                &&& after@ == with_alarms(before@, user_id, list)
                &&& asked == sent
            }
        }
}

/// What the news of a call does to the state and asks for.
///
/// A call that came in is hung up on while it waits. Of the calls that
/// went out, one that was picked up or declined acts on the alarms of the
/// user who was called, if the user has any.
pub open spec fn call_outcome(
    before: State,
    user_id: i64,
    call_id: i64,
    phase: CallPhase,
    is_outgoing: bool,
    after: State,
    outcome: Outcome,
) -> bool {
    if !is_outgoing {
        &&& after@ == before@
        &&& !outcome.save
        &&& outcome.actions@ == if phase == CallPhase::Pending {
            seq![Action::DiscardCall { call_id }]
        } else {
            Seq::empty()
        }
    } else if phase == CallPhase::ExchangingKeys && before@.alarms.contains_key(user_id) {
        &&& answered_outcome(before, user_id, after, outcome.actions@)
        &&& outcome.save
    } else if phase == CallPhase::Discarded && before@.alarms.contains_key(user_id) {
        &&& after@ == with_alarms(before@, user_id, declined_alarms(before@.alarms[user_id]))
        &&& outcome.actions@ == decline_actions_all(
            user_id,
            known_name(before, user_id),
            before@.alarms[user_id],
        )
        &&& outcome.save
    } else {
        &&& after@ == before@
        &&& outcome.actions@.len() == 0
        &&& outcome.save == (phase != CallPhase::ExchangingKeys && phase != CallPhase::Discarded)
    }
}

/// Takes in the news of a call.
pub fn handle_call(
    state: &mut State,
    user_id: i64,
    call_id: i64,
    phase: CallPhase,
    is_outgoing: bool,
) -> (outcome: Outcome)
    requires
        old(state).wf(),
    ensures
        call_outcome(*old(state), user_id, call_id, phase, is_outgoing, *final(state), outcome),
        final(state).wf(),
{
    let mut actions: Vec<Action> = Vec::new();
    if !is_outgoing {
        match phase {
            CallPhase::Pending => {
                actions.push(Action::DiscardCall { call_id });
            },
            _ => {},
        }
        return Outcome { actions, save: false };
    }
    match phase {
        CallPhase::ExchangingKeys => {
            match state.alarms.remove(&user_id) {
                None => {
                    assert(final(state)@.alarms =~= old(state)@.alarms);
                    Outcome { actions, save: false }
                },
                Some(mut alarms) => {
                    let resolved = answer_call(user_id, &mut alarms, &mut actions);
                    let ghost list = alarms@;
                    let ghost sent = actions@;
                    state.alarms.insert(user_id, alarms);
                    assert(state@.alarms =~= old(state)@.alarms.insert(user_id, list));
                    assert(state@ == with_alarms(old(state)@, user_id, list));
                    if resolved {
                        unlock_user(state, user_id, &mut actions);
                    }
                    assert(call_answered(user_id, old(state)@.alarms[user_id], list, sent));
                    Outcome { actions, save: true }
                },
            }
        },
        CallPhase::Discarded => {
            match state.alarms.remove(&user_id) {
                None => {
                    assert(final(state)@.alarms =~= old(state)@.alarms);
                    Outcome { actions, save: false }
                },
                Some(mut alarms) => {
                    let name = match state.users.get(&user_id) {
                        Some(name) => Some(name.clone()),
                        None => None,
                    };
                    decline_call(user_id, &name, &mut alarms, &mut actions);
                    let ghost list = alarms@;
                    state.alarms.insert(user_id, alarms);
                    assert(state@.alarms =~= old(state)@.alarms.insert(user_id, list));
                    Outcome { actions, save: true }
                },
            }
        },
        _ => Outcome { actions, save: true },
    }
}

/// Takes the user's alarms out of the state for a change.
pub fn take_alarms(state: &mut State, user_id: i64) -> (taken: Option<Vec<Alarm>>)
    requires
        old(state).wf(),
    ensures
        taken is Some <==> old(state)@.alarms.contains_key(user_id),
        taken matches Some(list) ==> list@ == old(state)@.alarms[user_id] && alarms_wf(list@),
        final(state)@ == (StateView {
            alarms: old(state)@.alarms.remove(user_id),
            ..old(state)@
        }),
        final(state).timezone == old(state).timezone,
        final(state).users == old(state).users,
        final(state).wf(),
{
    let taken = state.alarms.remove(&user_id);
    assert(final(state)@.alarms =~= old(state)@.alarms.remove(user_id));
    taken
}

/// Puts a list into the state as the user's alarms.
pub fn put_alarms(state: &mut State, user_id: i64, list: Vec<Alarm>)
    requires
        old(state).wf(),
        alarms_wf(list@),
    ensures
        final(state)@ == with_alarms(old(state)@, user_id, list@),
        final(state).timezone == old(state).timezone,
        final(state).users == old(state).users,
        final(state).wf(),
{
    state.alarms.insert(user_id, list);
    assert(final(state)@.alarms =~= old(state)@.alarms.insert(user_id, list@));
}

/// Taking a list out and putting one in is the same as putting it in.
pub proof fn lemma_take_then_put(state: StateView, user_id: i64, list: Seq<Alarm>)
    ensures
        with_alarms(
            StateView { alarms: state.alarms.remove(user_id), ..state },
            user_id,
            list,
        ) == with_alarms(state, user_id, list),
        state.alarms.contains_key(user_id) ==> with_alarms(
            state,
            user_id,
            state.alarms[user_id],
        ) == state,
{
    assert(state.alarms.remove(user_id).insert(user_id, list) =~= state.alarms.insert(
        user_id,
        list,
    ));
    if state.alarms.contains_key(user_id) {
        assert(state.alarms.insert(user_id, state.alarms[user_id]) =~= state.alarms);
    }
}

/// What a command on the alarm numbered by `arg` does to the state, and
/// the answer to it.
pub open spec fn by_id_outcome(
    state: StateView,
    user_id: i64,
    arg: Seq<char>,
    command: AlarmCommand,
) -> (StateView, Reply) {
    match unsigned_of(arg, usize::MAX as int) {
        None => (state, Reply::Refused(Refusal::BadIndex)),
        Some(id) => if !state.alarms.contains_key(user_id) || id >= state.alarms[user_id].len() {
            (state, Reply::Refused(Refusal::NoSuchAlarm))
        } else {
            (
                with_alarms(state, user_id, command_effect(state.alarms[user_id], id, command)),
                command_reply(state.alarms[user_id][id], id as usize, command),
            )
        },
    }
}

/// Carries out a command on the one of the user's alarms that `arg` numbers.
pub fn with_alarm_id(state: &mut State, user_id: i64, arg: &str, command: AlarmCommand) -> (reply:
    Reply)
    requires
        old(state).wf(),
    ensures
        (final(state)@, reply) == by_id_outcome(old(state)@, user_id, arg@, command),
        final(state).wf(),
{
    let id = match parse_index(arg) {
        Some(id) => id,
        None => { return Reply::Refused(Refusal::BadIndex); },
    };
    proof {
        lemma_take_then_put(old(state)@, user_id, old(state)@.alarms[user_id]);
    }
    match take_alarms(state, user_id) {
        None => {
            assert(final(state)@.alarms =~= old(state)@.alarms);
            Reply::Refused(Refusal::NoSuchAlarm)
        },
        Some(mut alarms) => {
            let reply = if id < alarms.len() {
                apply_command(&mut alarms, id, command)
            } else {
                Reply::Refused(Refusal::NoSuchAlarm)
            };
            proof {
                lemma_take_then_put(old(state)@, user_id, alarms@);
            }
            put_alarms(state, user_id, alarms);
            reply
        },
    }
}

/// The answer to a message.
#[derive(Debug)]
pub struct Answer {
    /// What is sent back to the chat, as an answer to the message.
    pub reply: Option<Reply>,
    /// What else the messaging side is asked to do.
    pub extra: Vec<Action>,
    /// Whether the state has to be written to disk.
    pub save: bool,
}

/// What a request to cancel the nearest occurrence does to the state, and the
/// answer to it; the next occurrences are those after `now`. Closing an
/// alarm that was running lifts the mute of the user.
pub open spec fn cancel_outcome(
    before: State,
    user_id: i64,
    chat_id: i64,
    now: i64,
    after: State,
    answer: Answer,
) -> bool {
    if !before@.alarms.contains_key(user_id) {
        &&& after@ == before@
        &&& answer.reply == Some(Reply::Refused(Refusal::NoAlarmsYet))
        &&& answer.extra@.len() == 0
        &&& answer.save
    } else {
        let list = before@.alarms[user_id];
        let zone = before.zone_of(user_id);
        exists|next: Seq<Option<i64>>| #[trigger]
            all_resolve(list, zone@, now, next) && {
                let reply = cancel_reply(list, next, zone, chat_id, now);
                let changed = with_alarms(
                    before@,
                    user_id,
                    cancel_effect(list, next, chat_id, now),
                );
                &&& answer.reply == Some(reply)
                &&& answer.save
                &&& if reply is Closed {
                    &&& after@ == unlocked(changed, user_id)
                    &&& answer.extra@ == unlock_actions(before@, user_id)
                } else {
                    &&& after@ == changed
                    &&& answer.extra@.len() == 0
                }
            }
    }
}

/// Cancels the nearest occurrence among the alarms of the user that the
/// chat gets to see.
pub fn cancel_for(state: &mut State, user_id: i64, chat_id: i64, now: i64) -> (answer: Answer)
    requires
        old(state).wf(),
        is_instant(now as int),
    ensures
        cancel_outcome(*old(state), user_id, chat_id, now, *final(state), answer),
        final(state).wf(),
{
    let zone = state.zone_of(user_id);
    let mut extra: Vec<Action> = Vec::new();
    match take_alarms(state, user_id) {
        None => {
            assert(final(state)@.alarms =~= old(state)@.alarms);
            Answer { reply: Some(Reply::Refused(Refusal::NoAlarmsYet)), extra, save: true }
        },
        Some(mut alarms) => {
            let next = resolve_alarms(&alarms, &zone, now);
            let reply = cancel_nearest(&mut alarms, &next, &zone, chat_id, now);
            let closed = match reply {
                Reply::Closed { .. } => true,
                _ => false,
            };
            proof {
                lemma_take_then_put(old(state)@, user_id, alarms@);
            }
            put_alarms(state, user_id, alarms);
            if closed {
                unlock_user(state, user_id, &mut extra);
            }
            assert(all_resolve(old(state)@.alarms[user_id], zone@, now, next@));
            Answer { reply: Some(reply), extra, save: true }
        },
    }
}

/// What a purge does to the state, and the answer to it; the next
/// occurrences are those after `now`.
pub open spec fn purge_outcome(
    before: State,
    user_id: i64,
    now: i64,
    after: State,
    answer: Answer,
) -> bool {
    &&& answer.extra@.len() == 0
    &&& if !before@.alarms.contains_key(user_id) {
        &&& after@ == before@
        &&& answer.reply == Some(Reply::NoAlarms)
        &&& !answer.save
    } else {
        let list = before@.alarms[user_id];
        exists|next: Seq<Option<i64>>| #[trigger]
            all_resolve(list, before.zone_of(user_id)@, now, next) && {
                let count = (list.len() - purged(list, next).len()) as usize;
                &&& after@ == with_alarms(before@, user_id, purged(list, next))
                &&& answer.reply == Some(purge_reply(count))
                &&& answer.save == (count > 0)
            }
    }
}

/// Removes the user's alarms that have expired.
pub fn purge_for(state: &mut State, user_id: i64, now: i64) -> (answer: Answer)
    requires
        old(state).wf(),
        is_instant(now as int),
    ensures
        purge_outcome(*old(state), user_id, now, *final(state), answer),
        final(state).wf(),
{
    let zone = state.zone_of(user_id);
    match take_alarms(state, user_id) {
        None => {
            assert(final(state)@.alarms =~= old(state)@.alarms);
            Answer { reply: Some(Reply::NoAlarms), extra: Vec::new(), save: false }
        },
        Some(mut alarms) => {
            let next = resolve_alarms(&alarms, &zone, now);
            let count = purge(&mut alarms, &next);
            proof {
                lemma_take_then_put(old(state)@, user_id, alarms@);
            }
            put_alarms(state, user_id, alarms);
            assert(all_resolve(old(state)@.alarms[user_id], zone@, now, next@));
            let reply = if count > 0 {
                Reply::Purged { count }
            } else {
                Reply::NothingExpired
            };
            Answer { reply: Some(reply), extra: Vec::new(), save: count > 0 }
        },
    }
}

/// The answer to the question which alarm goes off next; the next
/// occurrences are those after `now`. A user without alarms gets no answer.
pub open spec fn next_outcome(
    state: State,
    user_id: i64,
    chat_id: i64,
    now: i64,
    answer: Answer,
) -> bool {
    &&& answer.extra@.len() == 0
    &&& !answer.save
    &&& if !state@.alarms.contains_key(user_id) {
        answer.reply is None
    } else {
        exists|next: Seq<Option<i64>>| #[trigger]
            all_resolve(state@.alarms[user_id], state.zone_of(user_id)@, now, next)
                && answer.reply == Some(
                next_reply(state@.alarms[user_id], next, state.zone_of(user_id), chat_id),
            )
    }
}

/// Says which of the user's alarms that the chat gets to see goes off next.
pub fn next_for(state: &State, user_id: i64, chat_id: i64, now: i64) -> (answer: Answer)
    requires
        state.wf(),
        is_instant(now as int),
    ensures
        next_outcome(*state, user_id, chat_id, now, answer),
{
    let zone = state.zone_of(user_id);
    match state.alarms.get(&user_id) {
        None => Answer { reply: None, extra: Vec::new(), save: false },
        Some(alarms) => {
            let next = resolve_alarms(alarms, &zone, now);
            let reply = next_alarm(alarms, &next, &zone, chat_id);
            assert(all_resolve(state@.alarms[user_id], zone@, now, next@));
            Answer { reply: Some(reply), extra: Vec::new(), save: false }
        },
    }
}

/// The answer to a request for the list of the user's alarms; the next
/// occurrences are those after `now`.
pub open spec fn list_outcome(
    state: State,
    user_id: i64,
    chat_id: i64,
    now: i64,
    answer: Answer,
) -> bool {
    &&& answer.extra@.len() == 0
    &&& !answer.save
    &&& if !state@.alarms.contains_key(user_id) {
        answer.reply == Some(Reply::Refused(Refusal::NoAlarmsYet))
    } else {
        exists|next: Seq<Option<i64>>| #[trigger]
            all_resolve(state@.alarms[user_id], state.zone_of(user_id)@, now, next)
                && answer.reply is Some && is_listing(
                state@.alarms[user_id],
                next,
                chat_id,
                answer.reply->0,
            )
    }
}

/// Lists the user's alarms that the chat gets to see.
pub fn list_for(state: &State, user_id: i64, chat_id: i64, now: i64) -> (answer: Answer)
    requires
        state.wf(),
        is_instant(now as int),
    ensures
        list_outcome(*state, user_id, chat_id, now, answer),
{
    let zone = state.zone_of(user_id);
    match state.alarms.get(&user_id) {
        None => Answer {
            reply: Some(Reply::Refused(Refusal::NoAlarmsYet)),
            extra: Vec::new(),
            save: false,
        },
        Some(alarms) => {
            let next = resolve_alarms(alarms, &zone, now);
            let reply = list_alarms(alarms, &next, chat_id);
            assert(all_resolve(state@.alarms[user_id], zone@, now, next@));
            Answer { reply: Some(reply), extra: Vec::new(), save: false }
        },
    }
}

/// `alarm` is a new, idle alarm with these settings.
pub open spec fn is_new_alarm(
    alarm: Alarm,
    user_id: i64,
    chat_id: i64,
    cron: Seq<char>,
    title: Seq<char>,
    is_strict: bool,
) -> bool {
    &&& alarm.user_id == user_id
    &&& alarm.chat_id == chat_id
    &&& alarm.cron@ == cron
    &&& alarm.title@ == title
    &&& alarm.is_strict == is_strict
    &&& !alarm.is_onceoff
    &&& !alarm.is_disabled
    &&& !alarm.is_pending
    &&& !alarm.is_informing
    &&& alarm.strict_challenge@.len() == 0
    &&& alarm.reschedule == 0
}

/// The user's alarms; none if the user has no list yet.
pub open spec fn alarms_of(state: StateView, user_id: i64) -> Seq<Alarm> {
    if state.alarms.contains_key(user_id) {
        state.alarms[user_id]
    } else {
        Seq::empty()
    }
}

/// What a command that sets an alarm does to the state, and the answer to
/// it, given what calendar and clock show now and a day from now: if `cron`
/// accepts the expression that the argument stands for, a new alarm is
/// added at the end of the user's list.
pub open spec fn set_outcome_on(
    before: State,
    user_id: i64,
    chat_id: i64,
    arg: Seq<char>,
    is_strict: bool,
    now: i64,
    today: Civil,
    tomorrow: Civil,
    after: State,
    answer: Answer,
) -> bool {
    let zone = before.zone_of(user_id);
    let expr = with_seconds(alarm_expr(arg, today, tomorrow));
    if !cron_accepts(expr) {
        &&& after@ == before@
        &&& answer.reply == Some(Reply::Refused(Refusal::BadExpression))
        &&& !answer.save
    } else {
        exists|alarm: Alarm, next: Option<i64>|
            #![trigger is_new_alarm(alarm, user_id, chat_id, expr, title_part(arg), is_strict), resolves(expr, zone@, now, next)]
            {
                &&& is_new_alarm(alarm, user_id, chat_id, expr, title_part(arg), is_strict)
                &&& resolves(expr, zone@, now, next)
                &&& after@ == with_alarms(before@, user_id, alarms_of(before@, user_id).push(alarm))
                &&& answer.reply == Some(Reply::AlarmSet { title: alarm.title, next, zone })
                &&& answer.save
            }
    }
}

/// What a command that sets an alarm does to the state, and the answer to it.
pub open spec fn set_outcome(
    before: State,
    user_id: i64,
    chat_id: i64,
    arg: Seq<char>,
    is_strict: bool,
    now: i64,
    after: State,
    answer: Answer,
) -> bool {
    &&& answer.extra@.len() == 0
    &&& exists|today: Civil, tomorrow: Civil|
        {
            &&& shows(before.zone_of(user_id)@, now, today)
            &&& shows(before.zone_of(user_id)@, (now + DAY) as i64, tomorrow)
            &&& #[trigger] set_outcome_on(
                before,
                user_id,
                chat_id,
                arg,
                is_strict,
                now,
                today,
                tomorrow,
                after,
                answer,
            )
        }
}

/// Sets an alarm for the user from the argument of the command.
pub fn set_alarm(
    state: &mut State,
    user_id: i64,
    chat_id: i64,
    arg: &str,
    is_strict: bool,
    now: i64,
) -> (answer: Answer)
    requires
        old(state).wf(),
        is_instant(now as int),
        is_instant(now + DAY),
    ensures
        set_outcome(*old(state), user_id, chat_id, arg@, is_strict, now, *final(state), answer),
        final(state).wf(),
{
    let zone = state.zone_of(user_id);
    let args = parse_alarm_args(arg, &zone, now);
    let ghost (today, tomorrow) = choose|today: Civil, tomorrow: Civil|
        {
            &&& shows(zone@, now, today)
            &&& shows(zone@, (now + DAY) as i64, tomorrow)
            &&& #[trigger] args_read(arg@, today, tomorrow, args)
        };
    let ghost expr = with_seconds(alarm_expr(arg@, today, tomorrow));
    match args {
        Err(_) => {
            let answer = Answer {
                reply: Some(Reply::Refused(Refusal::BadExpression)),
                extra: Vec::new(),
                save: false,
            };
            assert(set_outcome_on(
                *old(state),
                user_id,
                chat_id,
                arg@,
                is_strict,
                now,
                today,
                tomorrow,
                *state,
                answer,
            ));
            answer
        },
        Ok(args) => {
            let alarm = Alarm::new(user_id, chat_id, args.cron(), args.title(), is_strict);
            let next = get_next_schedule(args.cron(), &zone, now).instant();
            let title = alarm.title.clone();
            let mut alarms = match take_alarms(state, user_id) {
                Some(alarms) => alarms,
                None => Vec::new(),
            };
            alarms.push(alarm);
            proof {
                lemma_take_then_put(old(state)@, user_id, alarms@);
            }
            put_alarms(state, user_id, alarms);
            let answer = Answer {
                reply: Some(Reply::AlarmSet { title, next, zone }),
                extra: Vec::new(),
                save: true,
            };
            proof {
                assert(is_new_alarm(alarm, user_id, chat_id, expr, title_part(arg@), is_strict));
                assert(resolves(expr, zone@, now, next));
                assert(set_outcome_on(
                    *old(state),
                    user_id,
                    chat_id,
                    arg@,
                    is_strict,
                    now,
                    today,
                    tomorrow,
                    *state,
                    answer,
                ));
            }
            answer
        },
    }
}

/// What the zone command does to the state, and the answer to it: without
/// an argument it says which zone the user has; with the name of a zone
/// that is known it sets the user's zone.
pub open spec fn zone_outcome(
    before: State,
    user_id: i64,
    arg: Seq<char>,
    now: i64,
    after: State,
    answer: Answer,
) -> bool {
    &&& answer.extra@.len() == 0
    &&& if arg.len() == 0 {
        &&& after@ == before@
        &&& answer.reply == Some(Reply::ZoneIs { zone: before.zone_of(user_id), now })
        &&& !answer.save
    } else if zone_known(arg) {
        &&& after@ == (StateView { timezone: before@.timezone.insert(user_id, arg), ..before@ })
        &&& answer.reply matches Some(Reply::ZoneSet { name })
        &&& name@ == arg
        &&& answer.save
    } else {
        &&& after@ == before@
        &&& answer.reply == Some(Reply::Refused(Refusal::UnknownZone))
        &&& answer.save
    }
}

/// Tells or sets the user's zone.
pub fn zone_for(state: &mut State, user_id: i64, arg: &str, now: i64) -> (answer: Answer)
    requires
        old(state).wf(),
    ensures
        zone_outcome(*old(state), user_id, arg@, now, *final(state), answer),
        final(state).wf(),
{
    if arg.unicode_len() == 0 {
        return Answer {
            reply: Some(Reply::ZoneIs { zone: state.zone_of(user_id), now }),
            extra: Vec::new(),
            save: false,
        };
    }
    if zone_parses(arg) {
        state.timezone.insert(user_id, arg.to_owned());
        assert(final(state)@.timezone =~= old(state)@.timezone.insert(user_id, arg@));
        Answer { reply: Some(Reply::ZoneSet { name: arg.to_owned() }), extra: Vec::new(), save: true }
    } else {
        Answer { reply: Some(Reply::Refused(Refusal::UnknownZone)), extra: Vec::new(), save: true }
    }
}

/// The chats in which the user is muted; none if the user has no list yet.
pub open spec fn muted_in(state: StateView, user_id: i64) -> Seq<i64> {
    if state.sleeping.contains_key(user_id) {
        state.sleeping[user_id]
    } else {
        Seq::empty()
    }
}

/// Mutes the user in the chat until an alarm of theirs is resolved.
pub fn sleep_for(state: &mut State, user_id: i64, chat_id: i64) -> (answer: Answer)
    requires
        old(state).wf(),
    ensures
        final(state)@ == (StateView {
            sleeping: old(state)@.sleeping.insert(
                user_id,
                muted_in(old(state)@, user_id).push(chat_id),
            ),
            ..old(state)@
        }),
        answer.reply == Some(Reply::Goodnight),
        answer.extra@ == seq![Action::RestrictMember { chat_id, user_id }],
        answer.save,
        final(state).wf(),
{
    let mut chats = match state.sleeping.remove(&user_id) {
        Some(chats) => chats,
        None => Vec::new(),
    };
    chats.push(chat_id);
    state.sleeping.insert(user_id, chats);
    assert(final(state)@.sleeping =~= old(state)@.sleeping.insert(
        user_id,
        muted_in(old(state)@, user_id).push(chat_id),
    ));
    let mut extra: Vec<Action> = Vec::new();
    extra.push(Action::RestrictMember { chat_id, user_id });
    assert(extra@ =~= seq![Action::RestrictMember { chat_id, user_id }]);
    Answer { reply: Some(Reply::Goodnight), extra, save: true }
}

/// What a text that is no command does to the state, and the answer to
/// it: the first of the user's alarms that the text disarms is resolved,
/// and the mute of the user is lifted; any other text changes nothing and
/// gets no answer.
pub open spec fn disarm_outcome(
    before: State,
    user_id: i64,
    text: Seq<char>,
    after: State,
    answer: Answer,
) -> bool {
    let list = alarms_of(before@, user_id);
    exists|found: Option<usize>| #[trigger]
        is_first_answered(list, text, found) && match found {
            None => {
                &&& after@ == before@
                &&& answer.reply is None
                &&& answer.extra@.len() == 0
                &&& !answer.save
            },
            Some(k) => {
                &&& after@ == unlocked(
                    with_alarms(before@, user_id, list.update(k as int, list[k as int].resolved())),
                    user_id,
                )
                &&& answer.reply == Some(Reply::Disarmed { title: list[k as int].title })
                &&& answer.extra@ == unlock_actions(before@, user_id)
                &&& answer.save
            },
        }
}

/// Takes a text that is no command as the answer to a challenge.
pub fn disarm_for(state: &mut State, user_id: i64, text: &str) -> (answer: Answer)
    requires
        old(state).wf(),
    ensures
        disarm_outcome(*old(state), user_id, text@, *final(state), answer),
        final(state).wf(),
{
    let mut extra: Vec<Action> = Vec::new();
    match take_alarms(state, user_id) {
        None => {
            assert(final(state)@.alarms =~= old(state)@.alarms);
            assert(is_first_answered(alarms_of(old(state)@, user_id), text@, None));
            Answer { reply: None, extra, save: false }
        },
        Some(mut alarms) => {
            let ghost list = alarms@;
            let found = try_disarm(&mut alarms, text);
            let reply = match found {
                Some(k) => Some(Reply::Disarmed { title: alarms[k].title.clone() }),
                None => None,
            };
            proof {
                lemma_take_then_put(old(state)@, user_id, alarms@);
                lemma_take_then_put(old(state)@, user_id, list);
            }
            put_alarms(state, user_id, alarms);
            if found.is_some() {
                unlock_user(state, user_id, &mut extra);
            }
            assert(is_first_answered(alarms_of(old(state)@, user_id), text@, found));
            Answer { reply, extra, save: found.is_some() }
        },
    }
}

/// The commands.
#[derive(Clone, Copy, Debug, PartialEq, Eq, Structural)]
pub enum Word {
    Help,
    Timezone,
    Alarm,
    AlarmStrict,
    List,
    Disalarm,
    Disable,
    Enable,
    Strict,
    Next,
    Purge,
    Sleep,
    SleepNow,
    /// No command of the library.
    Unknown,
}

/// The command that a word stands for.
pub open spec fn word_of(word: Seq<char>) -> Word {
    if word == "#help"@ {
        Word::Help
    } else if word == "#timezone"@ {
        Word::Timezone
    } else if word == "#alarm"@ {
        Word::Alarm
    } else if word == "#alarm!"@ {
        Word::AlarmStrict
    } else if word == "#list"@ {
        Word::List
    } else if word == "#disalarm"@ {
        Word::Disalarm
    } else if word == "#disable"@ {
        Word::Disable
    } else if word == "#enable"@ {
        Word::Enable
    } else if word == "#strict"@ {
        Word::Strict
    } else if word == "#next"@ {
        Word::Next
    } else if word == "#purge"@ {
        Word::Purge
    } else if word == "#sleep"@ {
        Word::Sleep
    } else if word == "#sleep!"@ {
        Word::SleepNow
    } else {
        Word::Unknown
    }
}

/// Reads the word of a command.
pub fn read_word(word: &str) -> (command: Word)
    ensures
        command == word_of(word@),
{
    if same_text(word, "#help") {
        Word::Help
    } else if same_text(word, "#timezone") {
        Word::Timezone
    } else if same_text(word, "#alarm") {
        Word::Alarm
    } else if same_text(word, "#alarm!") {
        Word::AlarmStrict
    } else if same_text(word, "#list") {
        Word::List
    } else if same_text(word, "#disalarm") {
        Word::Disalarm
    } else if same_text(word, "#disable") {
        Word::Disable
    } else if same_text(word, "#enable") {
        Word::Enable
    } else if same_text(word, "#strict") {
        Word::Strict
    } else if same_text(word, "#next") {
        Word::Next
    } else if same_text(word, "#purge") {
        Word::Purge
    } else if same_text(word, "#sleep") {
        Word::Sleep
    } else if same_text(word, "#sleep!") {
        Word::SleepNow
    } else {
        Word::Unknown
    }
}

/// Whether a text asks for the help the way the messaging service has it:
/// `/help`, with or without the name of the account behind it.
pub open spec fn is_help_request(text: Seq<char>, account: Seq<char>) -> bool {
    text == "/help"@ || text == "/help@"@ + account
}

/// Whether a text is a command: commands start with `#`.
pub open spec fn is_command(text: Seq<char>) -> bool {
    text.len() > 0 && text[0] == '#'
}

/// The state stays as it is and the answer is `reply`, nothing else.
pub open spec fn only_replies(
    before: State,
    after: State,
    answer: Answer,
    reply: Option<Reply>,
) -> bool {
    &&& after@ == before@
    &&& answer.reply == reply
    &&& answer.extra@.len() == 0
    &&& !answer.save
}

/// The answer to a command on the alarm that `arg` numbers, and what the
/// command does to the state.
pub open spec fn by_id_answered(
    before: State,
    user_id: i64,
    arg: Seq<char>,
    command: AlarmCommand,
    after: State,
    answer: Answer,
) -> bool {
    &&& answer.reply is Some
    &&& (after@, answer.reply->0) == by_id_outcome(before@, user_id, arg, command)
    &&& answer.extra@.len() == 0
    &&& answer.save == unsigned_of(arg, usize::MAX as int) is Some
}

/// What a text message does to the state, and the answer to it.
pub open spec fn text_answered(
    before: State,
    chat_id: i64,
    user_id: i64,
    text: Seq<char>,
    account: Seq<char>,
    now: i64,
    after: State,
    answer: Answer,
) -> bool {
    let arg = command_arg(text);
    if is_help_request(text, account) {
        only_replies(before, after, answer, Some(Reply::Help))
    } else if !is_command(text) {
        disarm_outcome(before, user_id, text, after, answer)
    } else {
        match word_of(command_word(text)) {
            Word::Help => only_replies(before, after, answer, Some(Reply::Help)),
            Word::Timezone => zone_outcome(before, user_id, arg, now, after, answer),
            Word::Alarm => set_outcome(before, user_id, chat_id, arg, false, now, after, answer),
            Word::AlarmStrict => set_outcome(
                before,
                user_id,
                chat_id,
                arg,
                true,
                now,
                after,
                answer,
            ),
            Word::List => after@ == before@ && list_outcome(before, user_id, chat_id, now, answer),
            Word::Disalarm => if arg.len() == 0 {
                cancel_outcome(before, user_id, chat_id, now, after, answer)
            } else {
                by_id_answered(before, user_id, arg, AlarmCommand::Remove, after, answer)
            },
            Word::Disable => by_id_answered(
                before,
                user_id,
                arg,
                AlarmCommand::Disable,
                after,
                answer,
            ),
            Word::Enable => by_id_answered(
                before,
                user_id,
                arg,
                AlarmCommand::Enable,
                after,
                answer,
            ),
            Word::Strict => by_id_answered(
                before,
                user_id,
                arg,
                AlarmCommand::ToggleStrict,
                after,
                answer,
            ),
            Word::Next => after@ == before@ && next_outcome(before, user_id, chat_id, now, answer),
            Word::Purge => purge_outcome(before, user_id, now, after, answer),
            Word::Sleep => only_replies(
                before,
                after,
                answer,
                Some(Reply::Refused(Refusal::SleepNeedsBang)),
            ),
            Word::SleepNow => {
                &&& after@ == (StateView {
                    sleeping: before@.sleeping.insert(
                        user_id,
                        muted_in(before@, user_id).push(chat_id),
                    ),
                    ..before@
                })
                &&& answer.reply == Some(Reply::Goodnight)
                &&& answer.extra@ == seq![Action::RestrictMember { chat_id, user_id }]
                &&& answer.save
            },
            Word::Unknown => only_replies(before, after, answer, None),
        }
    }
}

/// Works out the answer to a text message of the user `user_id` in the
/// chat `chat_id`; `account` is the name of the account that the program
/// runs under.
pub fn answer_text(
    state: &mut State,
    chat_id: i64,
    user_id: i64,
    text: &str,
    account: &str,
    now: i64,
) -> (answer: Answer)
    requires
        old(state).wf(),
        is_instant(now as int),
        is_instant(now + DAY),
    ensures
        text_answered(*old(state), chat_id, user_id, text@, account@, now, *final(state), answer),
        final(state).wf(),
{
    let mut with_account = String::from_str("/help@");
    with_account.append(account);
    if same_text(text, "/help") || same_text(text, with_account.as_str()) {
        return Answer { reply: Some(Reply::Help), extra: Vec::new(), save: false };
    }
    if !(text.unicode_len() > 0 && text.get_char(0) == '#') {
        return disarm_for(state, user_id, text);
    }
    let command = parse_command_msg(text);
    let arg = command.arg();
    match read_word(command.cmd()) {
        Word::Help => Answer { reply: Some(Reply::Help), extra: Vec::new(), save: false },
        Word::Timezone => zone_for(state, user_id, arg, now),
        Word::Alarm => set_alarm(state, user_id, chat_id, arg, false, now),
        Word::AlarmStrict => set_alarm(state, user_id, chat_id, arg, true, now),
        Word::List => list_for(state, user_id, chat_id, now),
        Word::Disalarm => {
            if arg.unicode_len() == 0 {
                cancel_for(state, user_id, chat_id, now)
            } else {
                by_id_for(state, user_id, arg, AlarmCommand::Remove)
            }
        },
        Word::Disable => by_id_for(state, user_id, arg, AlarmCommand::Disable),
        Word::Enable => by_id_for(state, user_id, arg, AlarmCommand::Enable),
        Word::Strict => by_id_for(state, user_id, arg, AlarmCommand::ToggleStrict),
        Word::Next => next_for(state, user_id, chat_id, now),
        Word::Purge => purge_for(state, user_id, now),
        Word::Sleep => Answer {
            reply: Some(Reply::Refused(Refusal::SleepNeedsBang)),
            extra: Vec::new(),
            save: false,
        },
        Word::SleepNow => sleep_for(state, user_id, chat_id),
        Word::Unknown => Answer { reply: None, extra: Vec::new(), save: false },
    }
}

/// Carries out a command on the one of the user's alarms that `arg`
/// numbers, and answers.
pub fn by_id_for(state: &mut State, user_id: i64, arg: &str, command: AlarmCommand) -> (answer:
    Answer)
    requires
        old(state).wf(),
    ensures
        by_id_answered(*old(state), user_id, arg@, command, *final(state), answer),
        final(state).wf(),
{
    let reply = with_alarm_id(state, user_id, arg, command);
    let save = match reply {
        Reply::Refused(Refusal::BadIndex) => false,
        _ => true,
    };
    Answer { reply: Some(reply), extra: Vec::new(), save }
}

/// What an answer asks of the messaging side: the reply goes to the chat,
/// as an answer to the message, and the rest follows.
pub open spec fn answer_actions(chat_id: i64, message_id: i64, answer: Answer) -> Seq<Action> {
    match answer.reply {
        Some(reply) => seq![Action::SendText { chat_id, reply, reply_to: Some(message_id) }]
            + answer.extra@,
        None => answer.extra@,
    }
}

/// What a text message does to the state and asks for.
pub open spec fn text_outcome(
    before: State,
    chat_id: i64,
    user_id: i64,
    message_id: i64,
    text: Seq<char>,
    account: Seq<char>,
    now: i64,
    after: State,
    outcome: Outcome,
) -> bool {
    exists|answer: Answer|
        {
            &&& #[trigger] text_answered(
                before,
                chat_id,
                user_id,
                text,
                account,
                now,
                after,
                answer,
            )
            &&& outcome.actions@ == answer_actions(chat_id, message_id, answer)
            &&& outcome.save == answer.save
        }
}

/// Takes in a text message that came in: the message `message_id` of the
/// user `user_id` in the chat `chat_id`.
pub fn handle_text(
    state: &mut State,
    chat_id: i64,
    user_id: i64,
    message_id: i64,
    text: &str,
    account: &str,
    now: i64,
) -> (outcome: Outcome)
    requires
        old(state).wf(),
        is_instant(now as int),
        is_instant(now + DAY),
    ensures
        text_outcome(
            *old(state),
            chat_id,
            user_id,
            message_id,
            text@,
            account@,
            now,
            *final(state),
            outcome,
        ),
        final(state).wf(),
{
    let answer = answer_text(state, chat_id, user_id, text, account, now);
    let ghost given = answer;
    let Answer { reply, extra, save } = answer;
    let mut actions: Vec<Action> = Vec::new();
    match reply {
        Some(reply) => {
            actions.push(Action::SendText { chat_id, reply, reply_to: Some(message_id) });
        },
        None => {},
    }
    let mut extra = extra;
    actions.append(&mut extra);
    assert(actions@ =~= answer_actions(chat_id, message_id, given));
    Outcome { actions, save }
}

impl Store {
    /// Takes in a text message that came in.
    pub fn on_text(
        &mut self,
        chat_id: i64,
        user_id: i64,
        message_id: i64,
        text: &str,
        account: &str,
        now: i64,
    ) -> (outcome: Outcome)
        requires
            is_instant(now as int),
            is_instant(now + DAY),
        ensures
            text_outcome(
                *old(self).state(),
                chat_id,
                user_id,
                message_id,
                text@,
                account@,
                now,
                *final(self).state(),
                outcome,
            ),
            final(self).path_view() == old(self).path_view(),
    {
        let mut state = self.take();
        let outcome = handle_text(&mut state, chat_id, user_id, message_id, text, account, now);
        self.put(state);
        outcome
    }

    /// Takes in the news of a call.
    pub fn on_call(&mut self, user_id: i64, call_id: i64, phase: CallPhase, is_outgoing: bool) -> (outcome:
        Outcome)
        ensures
            call_outcome(
                *old(self).state(),
                user_id,
                call_id,
                phase,
                is_outgoing,
                *final(self).state(),
                outcome,
            ),
            final(self).path_view() == old(self).path_view(),
    {
        let mut state = self.take();
        let outcome = handle_call(&mut state, user_id, call_id, phase, is_outgoing);
        self.put(state);
        outcome
    }

    /// Remembers the display name of a user.
    pub fn on_profile(&mut self, user_id: i64, name: &str) -> (outcome: Outcome)
        ensures
            final(self).state()@ == (StateView {
                users: old(self).state()@.users.insert(user_id, name@),
                ..old(self).state()@
            }),
            outcome.actions@.len() == 0,
            outcome.save,
            final(self).path_view() == old(self).path_view(),
    {
        let mut state = self.take();
        let outcome = note_user(&mut state, user_id, name);
        self.put(state);
        outcome
    }
}

} // verus!
