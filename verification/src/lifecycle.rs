//! The lifecycle of a user's alarms: what calls, typed answers and
//! commands do to them.

use crate::alarm::is_upcoming;
use crate::alarm::nearest;
use crate::alarm::nearest_upcoming;
use crate::challenge::generate_strict_challenge;
use crate::challenge::Challenge;
use crate::clock::is_instant;
use crate::clock::Zone;
use crate::alarm::visible_in;
use crate::reply::Action;
use crate::reply::ListEntry;
use crate::reply::Refusal;
use crate::reply::Reply;
use crate::store::alarms_wf;
use crate::store::Alarm;
use crate::store::Phase;
use crate::text::same_text;
use crate::ticker::tick_decision;
use crate::ticker::ticked;
use crate::ticker::TickDecision;
use crate::ticker::RETRY_DELAY;
use vstd::prelude::*;

verus! {

/// Seconds ahead of an occurrence within which it can be cancelled.
pub const CANCEL_WINDOW: i64 = 3600;

/// A command on one alarm, picked by its number.
#[derive(Clone, Copy, Debug, PartialEq, Eq, Structural)]
pub enum AlarmCommand {
    /// Delete the alarm.
    Remove,
    /// Keep the alarm from firing.
    Disable,
    /// Let the alarm fire again.
    Enable,
    /// Switch strict mode on or off.
    ToggleStrict,
}

/// Whether the command is turned down: a strict alarm that is informing
/// can be neither removed nor disabled, and no alarm that is informing can
/// change its strict mode.
pub open spec fn command_refused(alarm: Alarm, command: AlarmCommand) -> bool {
    match command {
        AlarmCommand::Remove | AlarmCommand::Disable => alarm.is_strict && alarm.is_informing,
        AlarmCommand::Enable => false,
        AlarmCommand::ToggleStrict => alarm.is_informing,
    }
}

/// The alarm after a command other than `Remove`.
pub open spec fn commanded(alarm: Alarm, command: AlarmCommand) -> Alarm {
    if command_refused(alarm, command) {
        alarm
    } else {
        match command {
            AlarmCommand::Remove => alarm,
            AlarmCommand::Disable => if alarm.is_disabled {
                alarm
            } else {
                Alarm { is_disabled: true, ..alarm.resolved() }
            },
            AlarmCommand::Enable => Alarm { is_disabled: false, ..alarm },
            AlarmCommand::ToggleStrict => Alarm { is_strict: !alarm.is_strict, ..alarm },
        }
    }
}

/// The user's alarms after a command on alarm `id`.
pub open spec fn command_effect(alarms: Seq<Alarm>, id: int, command: AlarmCommand) -> Seq<Alarm> {
    if command == AlarmCommand::Remove && !command_refused(alarms[id], command) {
        alarms.remove(id)
    } else {
        alarms.update(id, commanded(alarms[id], command))
    }
}

/// The answer to a command on the alarm `alarm`, which is number `id`.
pub open spec fn command_reply(alarm: Alarm, id: usize, command: AlarmCommand) -> Reply {
    match command {
        AlarmCommand::Remove => if command_refused(alarm, command) {
            Reply::RemoveRefused
        } else {
            Reply::Removed
        },
        AlarmCommand::Disable => if command_refused(alarm, command) {
            Reply::DisableRefused
        } else if alarm.is_disabled {
            Reply::AlreadyDisabled
        } else {
            Reply::Disabled { title: alarm.title }
        },
        AlarmCommand::Enable => if !alarm.is_disabled {
            Reply::AlreadyEnabled
        } else {
            Reply::Enabled { title: alarm.title }
        },
        AlarmCommand::ToggleStrict => if command_refused(alarm, command) {
            Reply::StrictRefused
        } else if alarm.is_strict {
            Reply::StrictOff { id, title: alarm.title }
        } else {
            Reply::StrictOn { id, title: alarm.title }
        },
    }
}

/// Carries out a command on alarm `id` of the user's list.
pub fn apply_command(alarms: &mut Vec<Alarm>, id: usize, command: AlarmCommand) -> (reply: Reply)
    requires
        id < old(alarms).len(),
        alarms_wf(old(alarms)@),
    ensures
        final(alarms)@ == command_effect(old(alarms)@, id as int, command),
        reply == command_reply(old(alarms)@[id as int], id, command),
        alarms_wf(final(alarms)@),
{
    let reply = match command {
        AlarmCommand::Remove => {
            if alarms[id].is_strict && alarms[id].is_informing {
                Reply::RemoveRefused
            } else {
                alarms.remove(id);
                Reply::Removed
            }
        },
        AlarmCommand::Disable => {
            if alarms[id].is_strict && alarms[id].is_informing {
                Reply::DisableRefused
            } else if alarms[id].is_disabled {
                Reply::AlreadyDisabled
            } else {
                alarms[id].resolve();
                alarms[id].is_disabled = true;
                Reply::Disabled { title: alarms[id].title.clone() }
            }
        },
        AlarmCommand::Enable => {
            if !alarms[id].is_disabled {
                Reply::AlreadyEnabled
            } else {
                alarms[id].is_disabled = false;
                Reply::Enabled { title: alarms[id].title.clone() }
            }
        },
        AlarmCommand::ToggleStrict => {
            if alarms[id].is_informing {
                Reply::StrictRefused
            } else {
                let strict = !alarms[id].is_strict;
                alarms[id].is_strict = strict;
                if strict {
                    Reply::StrictOn { id, title: alarms[id].title.clone() }
                } else {
                    Reply::StrictOff { id, title: alarms[id].title.clone() }
                }
            }
        },
    };
    assert(final(alarms)@ =~= command_effect(old(alarms)@, id as int, command));
    reply
}

/// Whether a text disarms an alarm: the alarm is strict and informing, and
/// the text is its expected answer, character for character.
pub open spec fn answers_challenge(alarm: Alarm, text: Seq<char>) -> bool {
    alarm.is_strict && alarm.is_informing && text == alarm.strict_challenge@
}

/// `found` is the first alarm of the list that the text disarms.
pub open spec fn is_first_answered(alarms: Seq<Alarm>, text: Seq<char>, found: Option<usize>) -> bool {
    match found {
        Some(k) => k < alarms.len() && answers_challenge(alarms[k as int], text) && forall|j: int|
            0 <= j < k ==> !answers_challenge(#[trigger] alarms[j], text),
        None => forall|j: int| 0 <= j < alarms.len() ==> !answers_challenge(#[trigger] alarms[j], text),
    }
}

/// Takes a text as the answer to a challenge: the first alarm that it
/// disarms is resolved, and its place is returned. Any other text, such as
/// the answer with white space around it, changes nothing.
pub fn try_disarm(alarms: &mut Vec<Alarm>, text: &str) -> (found: Option<usize>)
    requires
        alarms_wf(old(alarms)@),
    ensures
        is_first_answered(old(alarms)@, text@, found),
        final(alarms)@ == (match found {
            Some(k) => old(alarms)@.update(k as int, old(alarms)@[k as int].resolved()),
            None => old(alarms)@,
        }),
        alarms_wf(final(alarms)@),
{
    let mut i: usize = 0;
    while i < alarms.len()
        invariant
            i <= alarms.len(),
            alarms@ == old(alarms)@,
            alarms_wf(alarms@),
            forall|j: int| 0 <= j < i ==> !answers_challenge(#[trigger] alarms@[j], text@),
        decreases alarms.len() - i,
    {
        if alarms[i].is_strict && alarms[i].is_informing && same_text(
            text,
            alarms[i].strict_challenge.as_str(),
        ) {
            alarms[i].resolve();
            assert(final(alarms)@ =~= old(alarms)@.update(
                i as int,
                old(alarms)@[i as int].resolved(),
            ));
            return Some(i);
        }
        i += 1;
    }
    None
}

/// The alarm after the user's call was answered: a pending alarm is resolved
/// unless it is strict; a strict one waits for the answer `answer`.
pub open spec fn answered(alarm: Alarm, answer: String) -> Alarm {
    if !alarm.is_pending {
        alarm
    } else if alarm.is_strict {
        Alarm { is_pending: false, strict_challenge: answer, ..alarm }
    } else {
        alarm.resolved()
    }
}

/// What is sent when the call for an alarm was answered: the challenge, to
/// the user, if the alarm was pending and is strict.
pub open spec fn answer_actions(user_id: i64, alarm: Alarm, challenge: Challenge) -> Seq<Action> {
    if alarm.is_pending && alarm.is_strict {
        seq![
            Action::SendText {
                chat_id: user_id,
                reply: Reply::Challenge { digits: challenge.digits, script: challenge.script },
                reply_to: None,
            },
        ]
    } else {
        Seq::empty()
    }
}

/// Applies an answered call to one alarm that is pending; `challenge` is
/// what the alarm asks next if it is strict.
pub fn answer_alarm(
    user_id: i64,
    alarm: &mut Alarm,
    challenge: Challenge,
    actions: &mut Vec<Action>,
)
    requires
        old(alarm).wf(),
        old(alarm).is_pending,
    ensures
        *final(alarm) == answered(*old(alarm), challenge.answer),
        final(actions)@ == old(actions)@ + answer_actions(user_id, *old(alarm), challenge),
        final(alarm).wf(),
        !final(alarm).is_pending,
{
    if alarm.is_strict {
        alarm.is_pending = false;
        alarm.strict_challenge = challenge.answer;
        actions.push(
            Action::SendText {
                chat_id: user_id,
                reply: Reply::Challenge { digits: challenge.digits, script: challenge.script },
                reply_to: None,
            },
        );
    } else {
        alarm.resolve();
    }
    assert(final(actions)@ =~= old(actions)@ + answer_actions(user_id, *old(alarm), challenge));
}

/// The call for alarm `i` was answered and the alarm asks for a typed answer.
pub open spec fn is_challenged(alarms: Seq<Alarm>, i: int) -> bool {
    0 <= i < alarms.len() && alarms[i].is_pending && alarms[i].is_strict
}

/// The call for alarm `i` was answered and that resolves the alarm.
pub open spec fn is_resolved_by_answer(alarms: Seq<Alarm>, i: int) -> bool {
    0 <= i < alarms.len() && alarms[i].is_pending && !alarms[i].is_strict
}

/// What is sent for a user's alarms when a call was answered;
/// `challenges[i]` is what alarm `i` asks if it is strict.
pub open spec fn answer_actions_all(
    user_id: i64,
    alarms: Seq<Alarm>,
    challenges: Seq<Challenge>,
) -> Seq<Action>
    decreases alarms.len(),
{
    if alarms.len() == 0 {
        Seq::empty()
    } else {
        answer_actions_all(user_id, alarms.drop_last(), challenges.drop_last()) + answer_actions(
            user_id,
            alarms.last(),
            challenges.last(),
        )
    }
}

/// An answered call brought the user's alarms from `before` to `after` and
/// asked for `asked`: every pending alarm is resolved or, if it is
/// strict, waits for the answer to a challenge that was made for it.
pub open spec fn call_answered(
    user_id: i64,
    before: Seq<Alarm>,
    after: Seq<Alarm>,
    asked: Seq<Action>,
) -> bool {
    exists|challenges: Seq<Challenge>|
        {
            &&& challenges.len() == before.len()
            &&& forall|i: int| is_challenged(before, i) ==> (#[trigger] challenges[i]).wf()
            &&& after == Seq::new(
                before.len(),
                |i: int| answered(before[i], challenges[i].answer),
            )
            &&& asked == #[trigger] answer_actions_all(user_id, before, challenges)
        }
}

/// Applies an answered call to the user's alarms and says whether it resolved
/// one of them. Each strict alarm that was pending gets a challenge of
/// its own.
pub fn answer_call(user_id: i64, alarms: &mut Vec<Alarm>, actions: &mut Vec<Action>) -> (resolved:
    bool)
    requires
        alarms_wf(old(alarms)@),
    ensures
        exists|asked: Seq<Action>|
            final(actions)@ == old(actions)@ + asked && #[trigger] call_answered(
                user_id,
                old(alarms)@,
                final(alarms)@,
                asked,
            ),
        resolved == exists|i: int| is_resolved_by_answer(old(alarms)@, i),
        alarms_wf(final(alarms)@),
{
    let mut resolved = false;
    let ghost mut challenges: Seq<Challenge> = Seq::empty();
    let ghost mut asked: Seq<Action> = Seq::empty();
    let mut i: usize = 0;
    while i < alarms.len()
        invariant
            i <= alarms.len(),
            alarms.len() == old(alarms).len(),
            challenges.len() == i,
            forall|j: int|
                is_challenged(old(alarms)@, j) && j < i ==> (#[trigger] challenges[j]).wf(),
            forall|j: int|
                0 <= j < i ==> alarms@[j] == answered(old(alarms)@[j], challenges[j].answer),
            forall|j: int| i <= j < alarms.len() ==> alarms@[j] == old(alarms)@[j],
            alarms_wf(alarms@),
            actions@ == old(actions)@ + asked,
            asked == answer_actions_all(user_id, old(alarms)@.take(i as int), challenges),
            resolved == exists|j: int| is_resolved_by_answer(old(alarms)@, j) && j < i,
        decreases alarms.len() - i,
    {
        let ghost seen = challenges;
        if alarms[i].is_pending && alarms[i].is_strict {
            let challenge = generate_strict_challenge();
            proof {
                challenges = challenges.push(challenge);
            }
            answer_alarm(user_id, &mut alarms[i], challenge, actions);
        } else {
            proof {
                challenges = challenges.push(arbitrary());
            }
            if alarms[i].is_pending {
                alarms[i].resolve();
                assert(is_resolved_by_answer(old(alarms)@, i as int));
                resolved = true;
            }
        }
        proof {
            assert(old(alarms)@.take(i + 1).drop_last() =~= old(alarms)@.take(i as int));
            assert(challenges.drop_last() =~= seen);
            asked = asked + answer_actions(user_id, old(alarms)@[i as int], challenges[i as int]);
            assert(actions@ =~= old(actions)@ + asked);
        }
        i += 1;
    }
    proof {
        assert(old(alarms)@.take(i as int) =~= old(alarms)@);
        assert(final(alarms)@ =~= Seq::new(
            old(alarms)@.len(),
            |i: int| answered(old(alarms)@[i], challenges[i].answer),
        ));
        assert(call_answered(user_id, old(alarms)@, final(alarms)@, asked));
    }
    resolved
}

/// The alarm after the user's call was declined: it is no longer pending
/// and stays informing, to be retried.
pub open spec fn declined(alarm: Alarm) -> Alarm {
    Alarm { is_pending: false, ..alarm }
}

/// What is sent when the call for an alarm was declined: a call for help
/// to the chat of a pending alarm that was set in a group.
pub open spec fn decline_actions(user_id: i64, name: Option<String>, alarm: Alarm) -> Seq<Action> {
    if alarm.is_pending && alarm.chat_id < 0 {
        seq![
            Action::SendText {
                chat_id: alarm.chat_id,
                reply: Reply::WakeHelp { display_name: name, user_id },
                reply_to: None,
            },
        ]
    } else {
        Seq::empty()
    }
}

/// The user's alarms after a declined call.
pub open spec fn declined_alarms(alarms: Seq<Alarm>) -> Seq<Alarm> {
    Seq::new(alarms.len(), |i: int| declined(alarms[i]))
}

/// What is sent for a user's alarms when a call was declined.
pub open spec fn decline_actions_all(
    user_id: i64,
    name: Option<String>,
    alarms: Seq<Alarm>,
) -> Seq<Action>
    decreases alarms.len(),
{
    if alarms.len() == 0 {
        Seq::empty()
    } else {
        decline_actions_all(user_id, name, alarms.drop_last()) + decline_actions(
            user_id,
            name,
            alarms.last(),
        )
    }
}

/// Applies a declined call to the user's alarms; `name` is the user's
/// display name, if one is known.
pub fn decline_call(
    user_id: i64,
    name: &Option<String>,
    alarms: &mut Vec<Alarm>,
    actions: &mut Vec<Action>,
)
    requires
        alarms_wf(old(alarms)@),
    ensures
        final(alarms)@ == declined_alarms(old(alarms)@),
        final(actions)@ == old(actions)@ + decline_actions_all(user_id, *name, old(alarms)@),
        alarms_wf(final(alarms)@),
{
    let mut i: usize = 0;
    while i < alarms.len()
        invariant
            i <= alarms.len(),
            alarms.len() == old(alarms).len(),
            forall|j: int| 0 <= j < i ==> alarms@[j] == declined(old(alarms)@[j]),
            forall|j: int| i <= j < alarms.len() ==> alarms@[j] == old(alarms)@[j],
            alarms_wf(alarms@),
            actions@ == old(actions)@ + decline_actions_all(
                user_id,
                *name,
                old(alarms)@.take(i as int),
            ),
        decreases alarms.len() - i,
    {
        assert(old(alarms)@.take(i + 1).drop_last() =~= old(alarms)@.take(i as int));
        if alarms[i].is_pending {
            alarms[i].is_pending = false;
            if alarms[i].chat_id < 0 {
                actions.push(
                    Action::SendText {
                        chat_id: alarms[i].chat_id,
                        reply: Reply::WakeHelp {
                            display_name: match name {
                                Some(name) => Some(name.clone()),
                                None => None,
                            },
                            user_id,
                        },
                        reply_to: None,
                    },
                );
            }
        }
        assert(actions@ =~= old(actions)@ + decline_actions_all(
            user_id,
            *name,
            old(alarms)@.take(i + 1),
        ));
        i += 1;
    }
    assert(old(alarms)@.take(i as int) =~= old(alarms)@);
    assert(final(alarms)@ =~= declined_alarms(old(alarms)@));
}

/// What cancelling the nearest occurrence does to the alarm that has it,
/// due at `at`.
#[derive(Clone, Copy, Debug, PartialEq, Eq, Structural)]
pub enum CancelDecision {
    /// The alarm is ringing and has to be closed first.
    Ringing,
    /// The alarm is running in strict mode and has to be closed first.
    Strict,
    /// The alarm is running and is resolved.
    Close,
    /// The occurrence lies within the window and will be skipped.
    Skip,
    /// The occurrence is too far off.
    TooFar,
}

pub open spec fn cancel_decision(alarm: Alarm, at: i64, now: i64) -> CancelDecision {
    if alarm.is_pending {
        CancelDecision::Ringing
    } else if alarm.is_informing && alarm.is_strict {
        CancelDecision::Strict
    } else if alarm.is_informing {
        CancelDecision::Close
    } else if now <= at < now + CANCEL_WINDOW {
        CancelDecision::Skip
    } else {
        CancelDecision::TooFar
    }
}

/// The alarm whose nearest occurrence, due at `at`, was asked to be cancelled.
pub open spec fn cancelled(alarm: Alarm, at: i64, now: i64) -> Alarm {
    match cancel_decision(alarm, at, now) {
        CancelDecision::Close => alarm.resolved(),
        CancelDecision::Skip => Alarm { is_onceoff: true, ..alarm },
        _ => alarm,
    }
}

/// The user's alarms after the nearest occurrence was asked to be cancelled.
pub open spec fn cancel_effect(
    alarms: Seq<Alarm>,
    next: Seq<Option<i64>>,
    chat_id: i64,
    now: i64,
) -> Seq<Alarm> {
    match nearest_upcoming(alarms, next, chat_id) {
        None => alarms,
        Some(k) => alarms.update(k as int, cancelled(alarms[k as int], next[k as int]->0, now)),
    }
}

/// The answer to a request to cancel the nearest occurrence.
pub open spec fn cancel_reply(
    alarms: Seq<Alarm>,
    next: Seq<Option<i64>>,
    zone: Zone,
    chat_id: i64,
    now: i64,
) -> Reply {
    match nearest_upcoming(alarms, next, chat_id) {
        None => if chat_id < 0 {
            Reply::GroupNothingUpcoming
        } else {
            Reply::Refused(Refusal::NothingUpcoming)
        },
        Some(k) => {
            let alarm = alarms[k as int];
            let at = next[k as int]->0;
            match cancel_decision(alarm, at, now) {
                CancelDecision::Ringing => Reply::StillRinging,
                CancelDecision::Strict => Reply::RemoveRefused,
                CancelDecision::Close => Reply::Closed { title: alarm.title },
                CancelDecision::Skip => Reply::Skipped { at, zone, title: alarm.title },
                CancelDecision::TooFar => if chat_id < 0 {
                    Reply::GroupNothingSoon
                } else {
                    Reply::Refused(Refusal::NothingSoon)
                },
            }
        },
    }
}

/// Cancels the nearest occurrence among the alarms that the chat gets to
/// see; `next[i]` is the next occurrence of alarm `i` after `now`.
///
/// An alarm that is running is closed instead, unless it is ringing or
/// strict. An occurrence is only cancelled within `CANCEL_WINDOW` seconds
/// ahead of it; otherwise nothing changes.
pub fn cancel_nearest(
    alarms: &mut Vec<Alarm>,
    next: &Vec<Option<i64>>,
    zone: &Zone,
    chat_id: i64,
    now: i64,
) -> (reply: Reply)
    requires
        alarms_wf(old(alarms)@),
        next.len() == old(alarms).len(),
        is_instant(now as int),
    ensures
        final(alarms)@ == cancel_effect(old(alarms)@, next@, chat_id, now),
        reply == cancel_reply(old(alarms)@, next@, *zone, chat_id, now),
        alarms_wf(final(alarms)@),
{
    let found = nearest(alarms, next, chat_id);
    let k = match found {
        Some(k) => k,
        None => {
            return if chat_id < 0 {
                Reply::GroupNothingUpcoming
            } else {
                Reply::Refused(Refusal::NothingUpcoming)
            };
        },
    };
    assert(is_upcoming(alarms@, next@, chat_id, k as int));
    let at = next[k].unwrap();
    let reply = if alarms[k].is_pending {
        Reply::StillRinging
    } else if alarms[k].is_informing && alarms[k].is_strict {
        Reply::RemoveRefused
    } else if alarms[k].is_informing {
        alarms[k].resolve();
        Reply::Closed { title: alarms[k].title.clone() }
    } else if now <= at && at < now + CANCEL_WINDOW {
        alarms[k].is_onceoff = true;
        Reply::Skipped { at, zone: zone.duplicate(), title: alarms[k].title.clone() }
    } else if chat_id < 0 {
        Reply::GroupNothingSoon
    } else {
        Reply::Refused(Refusal::NothingSoon)
    };
    assert(final(alarms)@ =~= cancel_effect(old(alarms)@, next@, chat_id, now));
    reply
}

/// The answer to the question which alarm goes off next.
pub open spec fn next_reply(
    alarms: Seq<Alarm>,
    next: Seq<Option<i64>>,
    zone: Zone,
    chat_id: i64,
) -> Reply {
    match nearest_upcoming(alarms, next, chat_id) {
        Some(k) => Reply::Next { at: next[k as int]->0, zone, title: alarms[k as int].title },
        None => if chat_id < 0 {
            Reply::GroupNothingUpcoming
        } else {
            Reply::Refused(Refusal::NothingUpcoming)
        },
    }
}

/// Says which of the alarms that the chat gets to see goes off next;
/// `next[i]` is the next occurrence of alarm `i`.
pub fn next_alarm(alarms: &Vec<Alarm>, next: &Vec<Option<i64>>, zone: &Zone, chat_id: i64) -> (reply:
    Reply)
    requires
        next.len() == alarms.len(),
    ensures
        reply == next_reply(alarms@, next@, *zone, chat_id),
{
    match nearest(alarms, next, chat_id) {
        Some(k) => {
            assert(is_upcoming(alarms@, next@, chat_id, k as int));
            Reply::Next {
                at: next[k].unwrap(),
                zone: zone.duplicate(),
                title: alarms[k].title.clone(),
            }
        },
        None => if chat_id < 0 {
            Reply::GroupNothingUpcoming
        } else {
            Reply::Refused(Refusal::NothingUpcoming)
        },
    }
}

/// The line of the list for alarm number `id`, whose schedule occurs next
/// at `next`.
pub open spec fn list_entry(alarm: Alarm, id: usize, next: Option<i64>) -> ListEntry {
    ListEntry {
        id,
        informing: alarm.is_informing,
        expired: !alarm.is_informing && next is None,
        disabled: alarm.is_disabled,
        title: alarm.title,
        strict: alarm.is_strict,
        cron: alarm.cron,
    }
}

/// The lines of the list of a user's alarms: one for each alarm that the
/// chat gets to see, in the order of the alarms.
pub open spec fn list_entries(
    alarms: Seq<Alarm>,
    next: Seq<Option<i64>>,
    chat_id: i64,
) -> Seq<ListEntry>
    decreases alarms.len(),
{
    if alarms.len() == 0 {
        Seq::empty()
    } else {
        let before = list_entries(alarms.drop_last(), next.drop_last(), chat_id);
        if visible_in(alarms.last(), chat_id) {
            before.push(list_entry(alarms.last(), (alarms.len() - 1) as usize, next.last()))
        } else {
            before
        }
    }
}

/// `reply` is the list of the alarms.
pub open spec fn is_listing(
    alarms: Seq<Alarm>,
    next: Seq<Option<i64>>,
    chat_id: i64,
    reply: Reply,
) -> bool {
    &&& reply matches Reply::Listing { entries, total }
    &&& entries@ == list_entries(alarms, next, chat_id)
    &&& total == alarms.len()
}

/// Lists the user's alarms that the chat gets to see; `next[i]` is the
/// next occurrence of alarm `i`.
pub fn list_alarms(alarms: &Vec<Alarm>, next: &Vec<Option<i64>>, chat_id: i64) -> (reply: Reply)
    requires
        next.len() == alarms.len(),
    ensures
        is_listing(alarms@, next@, chat_id, reply),
{
    let mut entries: Vec<ListEntry> = Vec::new();
    let mut i: usize = 0;
    while i < alarms.len()
        invariant
            i <= alarms.len(),
            next.len() == alarms.len(),
            entries@ == list_entries(alarms@.take(i as int), next@.take(i as int), chat_id),
        decreases alarms.len() - i,
    {
        proof {
            assert(alarms@.take(i + 1).drop_last() =~= alarms@.take(i as int));
            assert(next@.take(i + 1).drop_last() =~= next@.take(i as int));
        }
        if chat_id >= 0 || alarms[i].chat_id == chat_id {
            entries.push(
                ListEntry {
                    id: i,
                    informing: alarms[i].is_informing,
                    expired: !alarms[i].is_informing && next[i].is_none(),
                    disabled: alarms[i].is_disabled,
                    title: alarms[i].title.clone(),
                    strict: alarms[i].is_strict,
                    cron: alarms[i].cron.clone(),
                },
            );
        }
        i += 1;
    }
    assert(alarms@.take(i as int) =~= alarms@);
    assert(next@.take(i as int) =~= next@);
    Reply::Listing { entries, total: alarms.len() }
}

/// An alarm is purged if it is not informing and its schedule has expired.
pub open spec fn is_purged(alarm: Alarm, next: Option<i64>) -> bool {
    !alarm.is_informing && next is None
}

/// The places of the alarms that a purge keeps, in their order.
pub open spec fn kept_places(alarms: Seq<Alarm>, next: Seq<Option<i64>>) -> Seq<int>
    decreases alarms.len(),
{
    if alarms.len() == 0 {
        Seq::empty()
    } else {
        let before = kept_places(alarms.drop_last(), next.drop_last());
        if is_purged(alarms.last(), next.last()) {
            before
        } else {
            before.push(alarms.len() - 1)
        }
    }
}

/// The alarms that a purge keeps, in their order.
pub open spec fn purged(alarms: Seq<Alarm>, next: Seq<Option<i64>>) -> Seq<Alarm> {
    kept_places(alarms, next).map_values(|i: int| alarms[i])
}

/// A purge keeps an alarm if and only if the alarm is informing or its
/// schedule has an occurrence left; the alarms it keeps stay in their order.
/// So it never removes an alarm that is informing, whatever its schedule.
pub proof fn lemma_purge_keeps(alarms: Seq<Alarm>, next: Seq<Option<i64>>)
    requires
        next.len() == alarms.len(),
    ensures
        forall|i: int|
            0 <= i < alarms.len() ==> (kept_places(alarms, next).contains(i) <==> !is_purged(
                alarms[i],
                next[i],
            )),
        forall|k: int|
            0 <= k < kept_places(alarms, next).len() ==> 0 <= #[trigger] kept_places(
                alarms,
                next,
            )[k] < alarms.len(),
        forall|j: int, k: int|
            0 <= j < k < kept_places(alarms, next).len() ==> kept_places(alarms, next)[j]
                < kept_places(alarms, next)[k],
        forall|i: int|
            0 <= i < alarms.len() && alarms[i].is_informing ==> kept_places(alarms, next).contains(
                i,
            ),
        kept_places(alarms, next).len() <= alarms.len(),
    decreases alarms.len(),
{
    if alarms.len() > 0 {
        let a0 = alarms.drop_last();
        let n0 = next.drop_last();
        lemma_purge_keeps(a0, n0);
        let before = kept_places(a0, n0);
        let all = kept_places(alarms, next);
        let last = alarms.len() - 1;
        assert forall|i: int| 0 <= i < alarms.len() implies (all.contains(i) <==> !is_purged(
            alarms[i],
            next[i],
        )) by {
            if i < last {
                assert(a0[i] == alarms[i] && n0[i] == next[i]);
                if before.contains(i) {
                    let k = choose|k: int| 0 <= k < before.len() && before[k] == i;
                    assert(all[k] == i);
                }
                if all.contains(i) {
                    let k = choose|k: int| 0 <= k < all.len() && all[k] == i;
                    assert(before[k] == i);
                }
            } else {
                if !is_purged(alarms.last(), next.last()) {
                    assert(all[all.len() - 1] == last);
                } else if all.contains(i) {
                    let k = choose|k: int| 0 <= k < all.len() && all[k] == i;
                    assert(before[k] < last);
                }
            }
        }
    }
}

/// Removes the alarms that have expired and says how many they were;
/// `next[i]` is the next occurrence of alarm `i`.
pub fn purge(alarms: &mut Vec<Alarm>, next: &Vec<Option<i64>>) -> (count: usize)
    requires
        alarms_wf(old(alarms)@),
        next.len() == old(alarms).len(),
    ensures
        final(alarms)@ == purged(old(alarms)@, next@),
        count == old(alarms).len() - final(alarms).len(),
        alarms_wf(final(alarms)@),
{
    let mut count: usize = 0;
    let mut i: usize = 0;
    let mut seen: usize = 0;
    while seen < next.len()
        invariant
            seen <= next.len(),
            next.len() == old(alarms).len(),
            i + count == seen,
            alarms.len() + count == old(alarms).len(),
            alarms@.take(i as int) == purged(
                old(alarms)@.take(seen as int),
                next@.take(seen as int),
            ),
            alarms@.skip(i as int) == old(alarms)@.skip(seen as int),
            alarms_wf(alarms@),
        decreases next.len() - seen,
    {
        proof {
            let a1 = old(alarms)@.take(seen + 1);
            let n1 = next@.take(seen + 1);
            assert(a1.drop_last() =~= old(alarms)@.take(seen as int));
            assert(n1.drop_last() =~= next@.take(seen as int));
            assert(alarms@[i as int] == alarms@.skip(i as int)[0]);
            assert(old(alarms)@[seen as int] == old(alarms)@.skip(seen as int)[0]);
            lemma_purge_keeps(old(alarms)@.take(seen as int), next@.take(seen as int));
        }
        let ghost before = alarms@;
        if !alarms[i].is_informing && next[seen].is_none() {
            alarms.remove(i);
            count += 1;
            assert(alarms@.take(i as int) =~= before.take(i as int));
            proof {
                let rest = alarms@.skip(i as int);
                let wanted = old(alarms)@.skip(seen + 1);
                assert forall|j: int| 0 <= j < rest.len() implies #[trigger] rest[j] == wanted[j] by {
                    assert(alarms@[i + j] == before[i + j + 1]);
                    assert(before[i + j + 1] == before.skip(i as int)[j + 1]);
                    assert(old(alarms)@.skip(seen as int)[j + 1] == old(alarms)@[seen + j + 1]);
                }
                assert(rest =~= wanted);
            }
        } else {
            assert(alarms@.take(i + 1) =~= purged(
                old(alarms)@.take(seen + 1),
                next@.take(seen + 1),
            )) by {
                let a1 = old(alarms)@.take(seen + 1);
                let n1 = next@.take(seen + 1);
                let a0 = old(alarms)@.take(seen as int);
                let n0 = next@.take(seen as int);
                assert(kept_places(a1, n1) == kept_places(a0, n0).push(seen as int));
                assert(purged(a0, n0).len() == i);
                assert(kept_places(a0, n0).len() == i);
                assert forall|k: int| 0 <= k < i implies alarms@.take(i + 1)[k] == purged(
                    a1,
                    n1,
                )[k] by {
                    assert(alarms@.take(i as int)[k] == purged(a0, n0)[k]);
                    assert(0 <= kept_places(a0, n0)[k] < seen);
                }
            }
            proof {
                let rest = alarms@.skip(i + 1);
                let wanted = old(alarms)@.skip(seen + 1);
                assert forall|j: int| 0 <= j < rest.len() implies #[trigger] rest[j] == wanted[j] by {
                    assert(alarms@[i + 1 + j] == alarms@.skip(i as int)[j + 1]);
                    assert(old(alarms)@.skip(seen as int)[j + 1] == old(alarms)@[seen + j + 1]);
                }
                assert(rest =~= wanted);
            }
            i += 1;
        }
        seen += 1;
    }
    assert(old(alarms)@.take(seen as int) =~= old(alarms)@);
    assert(next@.take(seen as int) =~= next@);
    assert(alarms@.skip(i as int).len() == 0);
    assert(alarms@.take(i as int) =~= alarms@);
    count
}

/// The answer after a purge that removed `count` alarms.
pub open spec fn purge_reply(count: usize) -> Reply {
    if count > 0 {
        Reply::Purged { count }
    } else {
        Reply::NothingExpired
    }
}

/// No step of the lifecycle leaves an alarm pending that is not informing:
/// a tick, a command, an answered or declined call, a cancelled occurrence
/// and a resolution all take an alarm that meets `Alarm::wf` to one that
/// meets it.
pub proof fn lemma_pending_stays_informing(
    alarm: Alarm,
    next: Option<i64>,
    last: i64,
    now: i64,
    command: AlarmCommand,
    answer: String,
)
    requires
        alarm.wf(),
    ensures
        ticked(alarm, next, last, now).wf(),
        commanded(alarm, command).wf(),
        answered(alarm, answer).wf(),
        declined(alarm).wf(),
        next is Some ==> cancelled(alarm, next->0, now).wf(),
        alarm.resolved().wf(),
        ticked(alarm, next, last, now).is_pending ==> ticked(alarm, next, last, now).is_informing,
        commanded(alarm, command).is_pending ==> commanded(alarm, command).is_informing,
        answered(alarm, answer).is_pending ==> answered(alarm, answer).is_informing,
        declined(alarm).is_pending ==> declined(alarm).is_informing,
{
}

/// The steps of the lifecycle: an alarm that fires was not ringing and is
/// ringing afterwards; an answered call takes a ringing alarm to idle, or, if
/// it is strict, to waiting for the answer; a declined call takes it to the
/// retry window, or, if it is strict, to waiting for the answer; neither
/// touches an alarm that is not ringing; a resolved alarm is idle.
pub proof fn lemma_lifecycle_steps(
    alarm: Alarm,
    next: Option<i64>,
    last: i64,
    now: i64,
    answer: String,
)
    requires
        alarm.wf(),
    ensures
        tick_decision(alarm, next, last, now) == TickDecision::Fire ==> alarm.phase()
            != Phase::Ringing && ticked(alarm, next, last, now).phase() == Phase::Ringing,
        alarm.phase() == Phase::Ringing ==> answered(alarm, answer).phase() == if alarm.is_strict {
            Phase::AwaitingChallenge
        } else {
            Phase::Idle
        },
        alarm.phase() == Phase::Ringing ==> declined(alarm).phase() == if alarm.is_strict {
            Phase::AwaitingChallenge
        } else {
            Phase::RetryWindow
        },
        alarm.phase() != Phase::Ringing ==> answered(alarm, answer) == alarm && declined(alarm)
            == alarm,
        alarm.resolved().phase() == Phase::Idle,
{
}

/// An alarm that fires is ringing, and its retry is due `RETRY_DELAY`
/// seconds after the instant of the tick.
pub proof fn lemma_fired_alarm_retries(alarm: Alarm, next: Option<i64>, last: i64, now: i64)
    requires
        tick_decision(alarm, next, last, now) == TickDecision::Fire,
        now + RETRY_DELAY <= i64::MAX,
    ensures
        ticked(alarm, next, last, now).is_pending,
        ticked(alarm, next, last, now).is_informing,
        ticked(alarm, next, last, now).reschedule == now + RETRY_DELAY,
{
}

/// A cancelled occurrence is skipped once and no more: cancelling the
/// occurrence at `at` of an idle alarm within the window ahead of it marks
/// the alarm; the tick whose window holds `at` does not fire the alarm and
/// takes the mark away; the tick whose window holds the occurrence after
/// that, at `later`, fires the alarm.
pub proof fn lemma_cancelled_occurrence_is_skipped_once(
    alarm: Alarm,
    at: i64,
    later: i64,
    asked: i64,
    last: i64,
    now: i64,
    then: i64,
)
    requires
        alarm.wf(),
        !alarm.is_informing,
        !alarm.is_disabled,
        asked <= at < asked + CANCEL_WINDOW,
        last < at <= now,
        now < later <= then,
    ensures
        cancelled(alarm, at, asked).is_onceoff,
        tick_decision(cancelled(alarm, at, asked), Some(at), last, now) == TickDecision::SkipOnce,
        ticked(cancelled(alarm, at, asked), Some(at), last, now) == (Alarm {
            is_onceoff: false,
            ..alarm
        }),
        tick_decision(
            ticked(cancelled(alarm, at, asked), Some(at), last, now),
            Some(later),
            now,
            then,
        ) == TickDecision::Fire,
{
}

/// Only the exact answer disarms: a text that differs from the expected
/// answer of every alarm, be it by white space at an end, disarms none, and
/// `try_disarm` then leaves the alarms as they are.
pub proof fn lemma_only_the_answer_disarms(alarms: Seq<Alarm>, text: Seq<char>)
    requires
        forall|i: int| 0 <= i < alarms.len() ==> text != (#[trigger] alarms[i]).strict_challenge@,
    ensures
        is_first_answered(alarms, text, None),
        forall|found: Option<usize>| is_first_answered(alarms, text, found) ==> found is None,
{
}

/// A text that is longer or shorter than the expected answer is not the answer.
pub proof fn lemma_padded_answer_fails(alarm: Alarm, text: Seq<char>)
    requires
        text.len() != alarm.strict_challenge@.len(),
    ensures
        !answers_challenge(alarm, text),
{
}

} // verus!
