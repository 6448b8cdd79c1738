//! The scheduler tick: which alarms fire in the window between two ticks.

use crate::alarm::all_resolve;
use crate::alarm::resolve_alarms;
use crate::clock::is_instant;
use crate::reply::Action;
use crate::reply::Reply;
use crate::store::alarm_owners;
use crate::store::alarms_wf;
use crate::store::Alarm;
use crate::store::State;
use crate::store::Store;
use std::collections::HashMap;
use vstd::prelude::*;

verus! {

broadcast use vstd::std_specs::hash::group_hash_axioms;

/// Seconds from a ring to the retry that follows if the alarm is not resolved.
pub const RETRY_DELAY: i64 = 300;

/// What a tick does with one alarm.
#[derive(Clone, Copy, Debug, PartialEq, Eq, Structural)]
pub enum TickDecision {
    /// Nothing: the alarm is disabled, is ringing already, or is not due.
    Skip,
    /// The alarm is due but skips this occurrence, once.
    SkipOnce,
    /// The alarm fires.
    Fire,
}

/// When the alarm is due next: at its retry instant while it is informing,
/// else at the next occurrence `next` of its schedule.
pub open spec fn due_instant(alarm: Alarm, next: Option<i64>) -> Option<i64> {
    if alarm.is_informing {
        Some(alarm.reschedule)
    } else {
        next
    }
}

/// The window of a tick is open at `last` and closed at `now`, so that each
/// instant falls into the window of exactly one tick.
pub open spec fn in_window(due: Option<i64>, last: i64, now: i64) -> bool {
    due is Some && last < due->0 <= now
}

pub open spec fn tick_decision(alarm: Alarm, next: Option<i64>, last: i64, now: i64) -> TickDecision {
    if alarm.is_disabled || alarm.is_pending || !in_window(due_instant(alarm, next), last, now) {
        TickDecision::Skip
    } else if alarm.is_onceoff {
        TickDecision::SkipOnce
    } else {
        TickDecision::Fire
    }
}

/// The alarm after the tick.
pub open spec fn ticked(alarm: Alarm, next: Option<i64>, last: i64, now: i64) -> Alarm {
    match tick_decision(alarm, next, last, now) {
        TickDecision::Skip => alarm,
        TickDecision::SkipOnce => Alarm { is_onceoff: false, ..alarm },
        TickDecision::Fire => Alarm {
            is_pending: true,
            is_informing: true,
            reschedule: (now + RETRY_DELAY) as i64,
            ..alarm
        },
    }
}

/// What has to be done for an alarm that fires: the title, if there is one,
/// goes to the chat the alarm was set in, and the user is called.
pub open spec fn fire_actions(user_id: i64, alarm: Alarm) -> Seq<Action> {
    if alarm.title@.len() == 0 {
        seq![Action::PlaceCall { user_id }]
    } else {
        seq![
            Action::SendText {
                chat_id: alarm.chat_id,
                reply: Reply::Title { title: alarm.title },
                reply_to: None,
            },
            Action::PlaceCall { user_id },
        ]
    }
}

/// What the tick asks for on behalf of one alarm.
pub open spec fn alarm_actions(
    user_id: i64,
    alarm: Alarm,
    next: Option<i64>,
    last: i64,
    now: i64,
) -> Seq<Action> {
    if tick_decision(alarm, next, last, now) == TickDecision::Fire {
        fire_actions(user_id, alarm)
    } else {
        Seq::empty()
    }
}

/// A user's alarms after the tick; `next[i]` is the next occurrence of the
/// schedule of `alarms[i]`.
pub open spec fn ticked_alarms(
    alarms: Seq<Alarm>,
    next: Seq<Option<i64>>,
    last: i64,
    now: i64,
) -> Seq<Alarm> {
    Seq::new(alarms.len(), |i: int| ticked(alarms[i], next[i], last, now))
}

/// What the tick asks for on behalf of a user's alarms, in the order of the list.
pub open spec fn tick_actions(
    user_id: i64,
    alarms: Seq<Alarm>,
    next: Seq<Option<i64>>,
    last: i64,
    now: i64,
) -> Seq<Action>
    decreases alarms.len(),
{
    if alarms.len() == 0 {
        Seq::empty()
    } else {
        tick_actions(user_id, alarms.drop_last(), next.drop_last(), last, now) + alarm_actions(
            user_id,
            alarms.last(),
            next.last(),
            last,
            now,
        )
    }
}

/// Decides what a tick over the window from `last` to `now` does with one alarm.
pub fn decide_tick(alarm: &Alarm, next: Option<i64>, last: i64, now: i64) -> (decision:
    TickDecision)
    ensures
        decision == tick_decision(*alarm, next, last, now),
{
    if alarm.is_disabled || alarm.is_pending {
        return TickDecision::Skip;
    }
    let due = if alarm.is_informing {
        Some(alarm.reschedule)
    } else {
        next
    };
    match due {
        Some(t) if last < t && t <= now => {
            if alarm.is_onceoff {
                TickDecision::SkipOnce
            } else {
                TickDecision::Fire
            }
        },
        _ => TickDecision::Skip,
    }
}

/// Applies one tick to one alarm of the user `user_id` and adds what it asks
/// for to `actions`.
///
/// An alarm that fires is ringing afterwards, and its retry is due
/// `RETRY_DELAY` seconds after `now`.
pub fn tick_alarm(
    user_id: i64,
    alarm: &mut Alarm,
    next: Option<i64>,
    last: i64,
    now: i64,
    actions: &mut Vec<Action>,
) -> (decision: TickDecision)
    requires
        old(alarm).wf(),
        is_instant(now as int),
    ensures
        decision == tick_decision(*old(alarm), next, last, now),
        *final(alarm) == ticked(*old(alarm), next, last, now),
        final(actions)@ == old(actions)@ + alarm_actions(user_id, *old(alarm), next, last, now),
        final(alarm).wf(),
        decision == TickDecision::Fire ==> final(alarm).is_pending && final(alarm).is_informing
            && final(alarm).reschedule == now + RETRY_DELAY,
{
    let decision = decide_tick(alarm, next, last, now);
    match decision {
        TickDecision::Skip => {},
        TickDecision::SkipOnce => {
            alarm.is_onceoff = false;
        },
        TickDecision::Fire => {
            alarm.is_pending = true;
            alarm.is_informing = true;
            alarm.reschedule = now + RETRY_DELAY;
            if alarm.title.as_str().unicode_len() > 0 {
                actions.push(
                    Action::SendText {
                        chat_id: alarm.chat_id,
                        reply: Reply::Title { title: alarm.title.clone() },
                        reply_to: None,
                    },
                );
            }
            actions.push(Action::PlaceCall { user_id });
        },
    }
    assert(final(actions)@ =~= old(actions)@ + alarm_actions(
        user_id,
        *old(alarm),
        next,
        last,
        now,
    ));
    decision
}

/// Applies one tick to the alarms of the user `user_id`; `next[i]` is the
/// next occurrence of the schedule of `alarms[i]` after `last`.
pub fn tick_alarms(
    user_id: i64,
    alarms: &mut Vec<Alarm>,
    next: &Vec<Option<i64>>,
    last: i64,
    now: i64,
    actions: &mut Vec<Action>,
)
    requires
        alarms_wf(old(alarms)@),
        next.len() == old(alarms).len(),
        is_instant(now as int),
    ensures
        final(alarms)@ == ticked_alarms(old(alarms)@, next@, last, now),
        final(actions)@ == old(actions)@ + tick_actions(user_id, old(alarms)@, next@, last, now),
        alarms_wf(final(alarms)@),
{
    let mut i: usize = 0;
    while i < alarms.len()
        invariant
            i <= alarms.len(),
            alarms.len() == old(alarms).len(),
            next.len() == alarms.len(),
            is_instant(now as int),
            forall|j: int| 0 <= j < i ==> alarms@[j] == ticked(old(alarms)@[j], next@[j], last, now),
            forall|j: int| i <= j < alarms.len() ==> alarms@[j] == old(alarms)@[j],
            alarms_wf(alarms@),
            actions@ == old(actions)@ + tick_actions(
                user_id,
                old(alarms)@.take(i as int),
                next@.take(i as int),
                last,
                now,
            ),
        decreases alarms.len() - i,
    {
        proof {
            let upto = old(alarms)@.take(i + 1);
            assert(upto.drop_last() =~= old(alarms)@.take(i as int));
            assert(next@.take(i + 1).drop_last() =~= next@.take(i as int));
        }
        tick_alarm(user_id, &mut alarms[i], next[i], last, now, actions);
        i += 1;
    }
    assert(old(alarms)@.take(i as int) =~= old(alarms)@);
    assert(next@.take(i as int) =~= next@);
    assert(final(alarms)@ =~= ticked_alarms(old(alarms)@, next@, last, now));
}

/// `next` holds, for each user, the next occurrences after `after` of the
/// schedules of the user's alarms, in the user's zone.
pub open spec fn state_resolves(
    state: State,
    after: i64,
    next: Map<i64, Seq<Option<i64>>>,
) -> bool {
    &&& next.dom() == state@.alarms.dom()
    &&& forall|u: i64| #[trigger]
        state@.alarms.contains_key(u) ==> all_resolve(
            state@.alarms[u],
            state.zone_of(u)@,
            after,
            next[u],
        )
}

/// Next occurrences by user, as mathematics sees them.
pub open spec fn occurrences(next: Map<i64, Vec<Option<i64>>>) -> Map<i64, Seq<Option<i64>>> {
    next.map_values(|found: Vec<Option<i64>>| found@)
}

/// Looks up the next occurrence after `after` of every alarm of the state.
/// `users` lists the users that have alarms.
pub fn resolve_state(state: &State, users: &Vec<i64>, after: i64) -> (next: HashMap<
    i64,
    Vec<Option<i64>>,
>)
    requires
        state.wf(),
        users@.to_set() == state@.alarms.dom(),
        is_instant(after as int),
    ensures
        state_resolves(*state, after, occurrences(next@)),
{
    let mut next: HashMap<i64, Vec<Option<i64>>> = HashMap::new();
    let mut i: usize = 0;
    assert(state.alarms@.dom() =~= state@.alarms.dom());
    while i < users.len()
        invariant
            i <= users.len(),
            state.wf(),
            users@.to_set() == state.alarms@.dom(),
            is_instant(after as int),
            next@.dom() == users@.take(i as int).to_set(),
            forall|u: i64| #[trigger]
                next@.contains_key(u) ==> all_resolve(
                    state.alarms@[u]@,
                    state.zone_of(u)@,
                    after,
                    next@[u]@,
                ),
        decreases users.len() - i,
    {
        let user = users[i];
        assert(users@.to_set().contains(user));
        let zone = state.zone_of(user);
        match state.alarms.get(&user) {
            Some(alarms) => {
                let found = resolve_alarms(alarms, &zone, after);
                next.insert(user, found);
            },
            None => {},
        }
        assert(users@.take(i + 1) =~= users@.take(i as int).push(user));
        proof {
            users@.take(i as int).lemma_push_to_set_commute(user);
        }
        i += 1;
    }
    assert(users@.take(i as int) =~= users@);
    next
}

/// The state after a tick; `next` holds the next occurrences of the schedules.
/// Only alarms change.
pub open spec fn state_ticked(
    before: State,
    next: Map<i64, Seq<Option<i64>>>,
    last: i64,
    now: i64,
    after: State,
) -> bool {
    &&& after@.timezone == before@.timezone
    &&& after@.sleeping == before@.sleeping
    &&& after@.users == before@.users
    &&& after@.alarms.dom() == before@.alarms.dom()
    &&& forall|u: i64| #[trigger]
        before@.alarms.contains_key(u) ==> after@.alarms[u] == ticked_alarms(
            before@.alarms[u],
            next[u],
            last,
            now,
        )
}

/// What a tick asks for, users taken in the order `order`.
pub open spec fn sweep_actions(
    alarms: Map<i64, Seq<Alarm>>,
    order: Seq<i64>,
    next: Map<i64, Seq<Option<i64>>>,
    last: i64,
    now: i64,
) -> Seq<Action>
    decreases order.len(),
{
    if order.len() == 0 {
        Seq::empty()
    } else {
        sweep_actions(alarms, order.drop_last(), next, last, now) + tick_actions(
            order.last(),
            alarms[order.last()],
            next[order.last()],
            last,
            now,
        )
    }
}

/// Applies one tick to every user's alarms, users taken in the order
/// `order`; `next` holds the next occurrences after `last` of the schedules.
pub fn apply_tick(
    state: &mut State,
    order: &Vec<i64>,
    next: &HashMap<i64, Vec<Option<i64>>>,
    last: i64,
    now: i64,
) -> (actions: Vec<Action>)
    requires
        old(state).wf(),
        order@.no_duplicates(),
        order@.to_set() == old(state)@.alarms.dom(),
        occurrences(next@).dom() == old(state)@.alarms.dom(),
        forall|u: i64| #[trigger]
            old(state)@.alarms.contains_key(u) ==> occurrences(next@)[u].len() == old(
                state,
            )@.alarms[u].len(),
        is_instant(now as int),
    ensures
        state_ticked(*old(state), occurrences(next@), last, now, *final(state)),
        actions@ == sweep_actions(old(state)@.alarms, order@, occurrences(next@), last, now),
        final(state).wf(),
{
    let mut actions: Vec<Action> = Vec::new();
    let mut i: usize = 0;
    proof {
        assert(next@.dom() =~= occurrences(next@).dom());
        assert(state.alarms@.dom() =~= state@.alarms.dom());
        assert forall|u: i64| #[trigger] next@.contains_key(u) implies next@[u].len() == old(
            state,
        ).alarms@[u].len() by {
            assert(old(state)@.alarms.contains_key(u));
            assert(occurrences(next@)[u] == next@[u]@);
        }
    }
    while i < order.len()
        invariant
            i <= order.len(),
            order@.no_duplicates(),
            order@.to_set() == old(state).alarms@.dom(),
            next@.dom() == old(state).alarms@.dom(),
            forall|u: i64| #[trigger]
                next@.contains_key(u) ==> next@[u].len() == old(state).alarms@[u].len(),
            is_instant(now as int),
            state.wf(),
            state.timezone == old(state).timezone,
            state.sleeping == old(state).sleeping,
            state.users == old(state).users,
            state.alarms@.dom() == old(state).alarms@.dom(),
            forall|j: int|
                0 <= j < i ==> state.alarms@[#[trigger] order@[j]]@ == ticked_alarms(
                    old(state).alarms@[order@[j]]@,
                    next@[order@[j]]@,
                    last,
                    now,
                ),
            forall|j: int|
                i <= j < order.len() ==> state.alarms@[#[trigger] order@[j]] == old(
                    state,
                ).alarms@[order@[j]],
            actions@ == sweep_actions(
                old(state)@.alarms,
                order@.take(i as int),
                occurrences(next@),
                last,
                now,
            ),
        decreases order.len() - i,
    {
        let user = order[i];
        assert(order@.to_set().contains(user));
        assert(order@.take(i + 1).drop_last() =~= order@.take(i as int));
        let found = next.get(&user);
        let taken = state.alarms.remove(&user);
        match (taken, found) {
            (Some(mut alarms), Some(found)) => {
                tick_alarms(user, &mut alarms, found, last, now, &mut actions);
                state.alarms.insert(user, alarms);
            },
            (Some(alarms), None) => {
                state.alarms.insert(user, alarms);
            },
            _ => {},
        }
        assert(state.alarms@.dom() =~= old(state).alarms@.dom());
        i += 1;
    }
    assert(order@.take(i as int) =~= order@);
    assert forall|u: i64| #[trigger] old(state).alarms@.contains_key(u) implies state.alarms@[u]@
        == ticked_alarms(old(state).alarms@[u]@, next@[u]@, last, now) by {
        assert(order@.to_set().contains(u));
        let j = choose|j: int| 0 <= j < order@.len() && order@[j] == u;
        assert(state.alarms@[order@[j]]@ == ticked_alarms(
            old(state).alarms@[order@[j]]@,
            next@[order@[j]]@,
            last,
            now,
        ));
    }
    actions
}

/// A tick over the window from `last` to `now` brought the state from
/// `before` to `after` and asked for `asked`: for some order of the users
/// and some next occurrences of the schedules after `last`.
pub open spec fn tick_outcome(
    before: State,
    last: i64,
    now: i64,
    after: State,
    asked: Seq<Action>,
) -> bool {
    exists|order: Seq<i64>, next: Map<i64, Seq<Option<i64>>>|
        {
            &&& order.no_duplicates()
            &&& order.to_set() == before@.alarms.dom()
            &&& state_resolves(before, last, next)
            &&& #[trigger] state_ticked(before, next, last, now, after)
            &&& asked == #[trigger] sweep_actions(before@.alarms, order, next, last, now)
        }
}

/// One tick of the scheduler over the whole state: every alarm that is due
/// in the window from `last` (exclusive) to `now` (inclusive) either fires
/// or uses up its skip.
pub fn tick_state(state: &mut State, last: i64, now: i64) -> (actions: Vec<Action>)
    requires
        old(state).wf(),
        is_instant(last as int),
        is_instant(now as int),
    ensures
        tick_outcome(*old(state), last, now, *final(state), actions@),
        final(state).wf(),
{
    let users = alarm_owners(&state.alarms);
    assert(state.alarms@.dom() =~= state@.alarms.dom());
    let next = resolve_state(state, &users, last);
    let actions = apply_tick(state, &users, &next, last, now);
    assert(state_ticked(*old(state), occurrences(next@), last, now, *final(state)));
    assert(actions@ == sweep_actions(old(state)@.alarms, users@, occurrences(next@), last, now));
    assert(users@.to_set() == old(state)@.alarms.dom());
    actions
}

impl Store {
    /// One tick of the scheduler over the window from `last` to `now`.
    pub fn tick(&mut self, last: i64, now: i64) -> (actions: Vec<Action>)
        requires
            is_instant(last as int),
            is_instant(now as int),
        ensures
            tick_outcome(*old(self).state(), last, now, *final(self).state(), actions@),
            final(self).path_view() == old(self).path_view(),
    {
        let mut state = self.take();
        let actions = tick_state(&mut state, last, now);
        self.put(state);
        actions
    }
}

/// The ticker: it remembers when it last ticked.
pub struct CronService {
    last_tick: i64,
}

impl CronService {
    #[verifier::type_invariant]
    spec fn inv(&self) -> bool {
        is_instant(self.last_tick as int)
    }

    pub closed spec fn spec_last_tick(&self) -> i64 {
        self.last_tick
    }

    /// A ticker that starts at `now`.
    pub fn new(now: i64) -> (service: CronService)
        requires
            is_instant(now as int),
        ensures
            service.last_tick() == now,
    {
        CronService { last_tick: now }
    }

    /// The instant of the last tick.
    #[verifier::when_used_as_spec(spec_last_tick)]
    pub fn last_tick(&self) -> (last: i64)
        ensures
            last == self.spec_last_tick(),
            is_instant(last as int),
    {
        proof {
            use_type_invariant(self);
        }
        self.last_tick
    }

    /// Ticks: sweeps the store over the window from the last tick to `now`,
    /// then remembers `now` as the last tick.
    pub fn tick(&mut self, store: &mut Store, now: i64) -> (actions: Vec<Action>)
        requires
            is_instant(now as int),
        ensures
            tick_outcome(
                *old(store).state(),
                old(self).last_tick(),
                now,
                *final(store).state(),
                actions@,
            ),
            final(self).last_tick() == now,
            final(store).path_view() == old(store).path_view(),
    {
        let last = self.last_tick();
        let actions = store.tick(last, now);
        self.last_tick = now;
        actions
    }
}

} // verus!
