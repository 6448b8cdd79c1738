//! Alarms, the per-user collections they live in, and the store that owns
//! them.

use crate::clock::cron_accepts;
use crate::clock::schedule_parses;
use crate::clock::zone_known;
use crate::clock::zone_parses;
use crate::clock::Zone;
use std::collections::HashMap;
use vstd::prelude::*;
use vstd::std_specs::hash::spec_keys_iter;
use vstd::std_specs::iter::IteratorSpec;

verus! {

broadcast use vstd::std_specs::hash::group_hash_axioms;

/// One recurring or one-off wake request.
#[derive(Clone, Debug, PartialEq, Eq)]
pub struct Alarm {
    /// The user who owns the alarm and is called when it fires.
    pub user_id: i64,
    /// The chat the alarm was set in; negative for a group chat.
    pub chat_id: i64,
    /// The schedule: a cron expression with a leading seconds field.
    pub cron: String,
    /// What the alarm is for; empty when it has no title.
    pub title: String,
    /// Disarming takes a typed answer to a challenge.
    pub is_strict: bool,
    /// The next due occurrence is skipped, once.
    pub is_onceoff: bool,
    /// The alarm never fires.
    pub is_disabled: bool,
    /// A call is outstanding, neither answered nor declined yet.
    pub is_pending: bool,
    /// The alarm is in a ring / retry cycle that has not been resolved.
    pub is_informing: bool,
    /// The answer expected to the challenge that was last sent.
    pub strict_challenge: String,
    /// While informing: the instant of the next retry.
    pub reschedule: i64,
}

/// Where an alarm stands in its lifecycle.
#[derive(Clone, Copy, Debug, PartialEq, Eq, Structural)]
pub enum Phase {
    /// Neither informing nor pending.
    Idle,
    /// A call is outstanding.
    Ringing,
    /// A strict alarm whose call is over and which waits for the typed answer.
    AwaitingChallenge,
    /// An alarm that is not strict, between an unanswered call and the next retry.
    RetryWindow,
}

impl Alarm {
    /// What holds of every alarm the library handles: a pending alarm is
    /// informing, an alarm that skips its next occurrence is not informing,
    /// and the schedule is one that `cron` accepts.
    pub open spec fn wf(&self) -> bool {
        &&& self.is_pending ==> self.is_informing
        &&& self.is_onceoff ==> !self.is_informing
        &&& cron_accepts(self.cron@)
    }

    pub open spec fn spec_phase(&self) -> Phase {
        if self.is_pending {
            Phase::Ringing
        } else if !self.is_informing {
            Phase::Idle
        } else if self.is_strict {
            Phase::AwaitingChallenge
        } else {
            Phase::RetryWindow
        }
    }

    /// The alarm as it is once its ring / retry cycle has been resolved: idle.
    pub open spec fn resolved(self) -> Alarm {
        Alarm { is_pending: false, is_informing: false, ..self }
    }

    /// A new idle alarm.
    pub fn new(user_id: i64, chat_id: i64, cron: &str, title: &str, is_strict: bool) -> (alarm:
        Alarm)
        ensures
            alarm.user_id == user_id,
            alarm.chat_id == chat_id,
            alarm.cron@ == cron@,
            alarm.title@ == title@,
            alarm.is_strict == is_strict,
            !alarm.is_onceoff,
            !alarm.is_disabled,
            !alarm.is_pending,
            !alarm.is_informing,
            alarm.strict_challenge@.len() == 0,
            alarm.reschedule == 0,
    {
        Alarm {
            user_id,
            chat_id,
            cron: cron.to_owned(),
            title: title.to_owned(),
            is_strict,
            is_onceoff: false,
            is_disabled: false,
            is_pending: false,
            is_informing: false,
            strict_challenge: String::new(),
            reschedule: 0,
        }
    }

    /// Where the alarm stands in its lifecycle.
    #[verifier::when_used_as_spec(spec_phase)]
    pub fn phase(&self) -> (phase: Phase)
        ensures
            phase == self.spec_phase(),
    {
        if self.is_pending {
            Phase::Ringing
        } else if !self.is_informing {
            Phase::Idle
        } else if self.is_strict {
            Phase::AwaitingChallenge
        } else {
            Phase::RetryWindow
        }
    }

    /// Resolves the ring / retry cycle: the alarm is idle afterwards.
    pub fn resolve(&mut self)
        ensures
            *final(self) == old(self).resolved(),
    {
        self.is_pending = false;
        self.is_informing = false;
    }

    /// Whether the alarm meets `wf`.
    pub fn check(&self) -> (ok: bool)
        ensures
            ok == self.wf(),
    {
        (!self.is_pending || self.is_informing) && (!self.is_onceoff || !self.is_informing)
            && schedule_parses(self.cron.as_str())
    }
}

/// Every alarm of the list meets `Alarm::wf`.
pub open spec fn alarms_wf(alarms: Seq<Alarm>) -> bool {
    forall|i: int| 0 <= i < alarms.len() ==> (#[trigger] alarms[i]).wf()
}

/// Whether every alarm of the list meets `Alarm::wf`.
pub fn check_alarms(alarms: &Vec<Alarm>) -> (ok: bool)
    ensures
        ok == alarms_wf(alarms@),
{
    let mut i: usize = 0;
    while i < alarms.len()
        invariant
            i <= alarms.len(),
            forall|j: int| 0 <= j < i ==> (#[trigger] alarms@[j]).wf(),
        decreases alarms.len() - i,
    {
        if !alarms[i].check() {
            return false;
        }
        i += 1;
    }
    true
}

/// Everything the program keeps between runs.
#[derive(Clone, Debug)]
pub struct State {
    /// Each user's alarms, in the order they were set.
    pub alarms: HashMap<i64, Vec<Alarm>>,
    /// Each user's time zone, by name; users without an entry use the
    /// zone of the machine.
    pub timezone: HashMap<i64, String>,
    /// For each user the group chats in which the user is muted until an
    /// alarm of theirs is resolved.
    pub sleeping: HashMap<i64, Vec<i64>>,
    /// The display name last seen for each user.
    pub users: HashMap<i64, String>,
}

/// The state as mathematics sees it: maps from users to lists and texts.
pub struct StateView {
    pub alarms: Map<i64, Seq<Alarm>>,
    pub timezone: Map<i64, Seq<char>>,
    pub sleeping: Map<i64, Seq<i64>>,
    pub users: Map<i64, Seq<char>>,
}

impl View for State {
    type V = StateView;

    open spec fn view(&self) -> StateView {
        StateView {
            alarms: self.alarms@.map_values(|list: Vec<Alarm>| list@),
            timezone: self.timezone@.map_values(|name: String| name@),
            sleeping: self.sleeping@.map_values(|chats: Vec<i64>| chats@),
            users: self.users@.map_values(|name: String| name@),
        }
    }
}

impl State {
    /// All alarms meet `Alarm::wf` and all zone names are known.
    pub open spec fn wf(&self) -> bool {
        &&& forall|u: i64| #[trigger]
            self.alarms@.contains_key(u) ==> alarms_wf(self.alarms@[u]@)
        &&& forall|u: i64| #[trigger]
            self.timezone@.contains_key(u) ==> zone_known(self.timezone@[u]@)
    }

    /// The zone a user's schedules are read in.
    pub open spec fn spec_zone_of(&self, user_id: i64) -> Zone {
        if self.timezone@.contains_key(user_id) {
            Zone::Named(self.timezone@[user_id])
        } else {
            Zone::Local
        }
    }

    /// A state without users.
    pub fn new() -> (state: State)
        ensures
            state.alarms@ == Map::<i64, Vec<Alarm>>::empty(),
            state.timezone@ == Map::<i64, String>::empty(),
            state.sleeping@ == Map::<i64, Vec<i64>>::empty(),
            state.users@ == Map::<i64, String>::empty(),
            state.wf(),
    {
        State {
            alarms: HashMap::new(),
            timezone: HashMap::new(),
            sleeping: HashMap::new(),
            users: HashMap::new(),
        }
    }

    /// The zone a user's schedules are read in.
    #[verifier::when_used_as_spec(spec_zone_of)]
    pub fn zone_of(&self, user_id: i64) -> (zone: Zone)
        ensures
            zone == self.spec_zone_of(user_id),
            self.wf() ==> zone.wf(),
    {
        match self.timezone.get(&user_id) {
            Some(name) => Zone::Named(name.clone()),
            None => Zone::Local,
        }
    }

    /// Whether the state meets `wf`.
    pub fn check(&self) -> (ok: bool)
        ensures
            ok == self.wf(),
    {
        let users = alarm_owners(&self.alarms);
        let mut i: usize = 0;
        while i < users.len()
            invariant
                i <= users.len(),
                users@.to_set() == self.alarms@.dom(),
                forall|j: int|
                    0 <= j < i ==> alarms_wf(self.alarms@[#[trigger] users@[j]]@),
            decreases users.len() - i,
        {
            let user = users[i];
            assert(users@.to_set().contains(user));
            match self.alarms.get(&user) {
                Some(alarms) => {
                    if !check_alarms(alarms) {
                        return false;
                    }
                },
                None => {},
            }
            i += 1;
        }
        assert forall|u: i64| #[trigger] self.alarms@.contains_key(u) implies alarms_wf(
            self.alarms@[u]@,
        ) by {
            assert(users@.to_set().contains(u));
            let j = choose|j: int| 0 <= j < users@.len() && users@[j] == u;
            assert(alarms_wf(self.alarms@[users@[j]]@));
        }
        let mut zones_ok = true;
        for name in it: self.timezone.values()
            invariant
                zones_ok == (forall|j: int|
                    0 <= j < it.index() ==> zone_known((#[trigger] it.seq()[j])@)),
        {
            if !zone_parses(name.as_str()) {
                zones_ok = false;
            }
        }
        proof {
            let names = vstd::std_specs::hash::spec_values_iter(&self.timezone).remaining();
            assert(names.unref().to_set() == self.timezone@.values());
            if zones_ok {
                assert forall|u: i64| #[trigger]
                    self.timezone@.contains_key(u) implies zone_known(self.timezone@[u]@) by {
                    assert(self.timezone@.values().contains(self.timezone@[u]));
                    assert(names.unref().to_set().contains(self.timezone@[u]));
                    let j = choose|j: int|
                        0 <= j < names.unref().len() && names.unref()[j] == self.timezone@[u];
                    assert(zone_known(names[j]@));
                }
            } else {
                let j = choose|j: int| 0 <= j < names.len() && !zone_known((#[trigger] names[j])@);
                assert(names.unref()[j] == *names[j]);
                assert(names.unref().to_set().contains(*names[j]));
                assert(self.timezone@.values().contains(*names[j]));
            }
        }
        zones_ok
    }
}

/// In a state that meets `State::wf`, and so in every state that a store
/// holds, no alarm is pending without being informing.
pub proof fn lemma_stored_alarms_are_sound(state: State, user_id: i64, i: int)
    requires
        state.wf(),
        state.alarms@.contains_key(user_id),
        0 <= i < state.alarms@[user_id]@.len(),
    ensures
        state.alarms@[user_id]@[i].is_pending ==> state.alarms@[user_id]@[i].is_informing,
{
    assert(state.alarms@[user_id]@[i].wf());
}

/// The users that have a list of alarms, each once, in no particular order.
pub fn alarm_owners(alarms: &HashMap<i64, Vec<Alarm>>) -> (users: Vec<i64>)
    ensures
        users@.no_duplicates(),
        users@.to_set() == alarms@.dom(),
{
    let mut users: Vec<i64> = Vec::new();
    for user in it: alarms.keys()
        invariant
            users@.len() == it.index(),
            forall|j: int| 0 <= j < users@.len() ==> users@[j] == *it.seq()[j],
    {
        users.push(*user);
    }
    assert(users@ =~= spec_keys_iter(alarms).remaining().unref());
    users
}

/// The store: the state, and where it is kept on disk.
///
/// A store only ever holds a state that meets `State::wf`.
pub struct Store {
    path: String,
    state: State,
}

impl Store {
    #[verifier::type_invariant]
    spec fn inv(&self) -> bool {
        self.state.wf()
    }

    pub closed spec fn spec_state(&self) -> &State {
        &self.state
    }

    pub closed spec fn path_view(&self) -> Seq<char> {
        self.path@
    }

    /// A store for `state`, kept at `path`; `None` when the state holds an
    /// alarm or a zone name that the library cannot work with.
    pub fn new(path: &str, state: State) -> (store: Option<Store>)
        ensures
            store is Some <==> state.wf(),
            store matches Some(s) ==> *s.state() == state && s.path_view() == path@,
    {
        if state.check() {
            Some(Store { path: path.to_owned(), state })
        } else {
            None
        }
    }

    /// The state held.
    #[verifier::when_used_as_spec(spec_state)]
    pub fn state(&self) -> (state: &State)
        ensures
            state == self.spec_state(),
            state.wf(),
    {
        proof {
            use_type_invariant(self);
        }
        &self.state
    }

    /// Where the state is kept.
    pub fn path(&self) -> (path: &str)
        ensures
            path@ == self.path_view(),
    {
        self.path.as_str()
    }

    /// Takes the state out for a change, leaving an empty one.
    pub(crate) fn take(&mut self) -> (state: State)
        ensures
            state == *old(self).state(),
            state.wf(),
            final(self).path_view() == old(self).path_view(),
    {
        proof {
            use_type_invariant(&*self);
        }
        let mut state = State::new();
        core::mem::swap(&mut self.state, &mut state);
        state
    }

    /// Puts a changed state back.
    pub(crate) fn put(&mut self, state: State)
        requires
            state.wf(),
        ensures
            *final(self).state() == state,
            final(self).path_view() == old(self).path_view(),
    {
        self.state = state;
    }
}

} // verus!
