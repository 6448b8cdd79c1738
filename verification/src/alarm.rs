//! When alarms go off next, and which of a user's alarms is the nearest.

use crate::clock::cron_accepts;
use crate::clock::is_instant;
use crate::clock::next_occurrence;
use crate::clock::resolves;
use crate::clock::Zone;
use crate::fmt::tells_time;
use crate::fmt::time_text;
use crate::store::alarms_wf;
use crate::store::Alarm;
use vstd::prelude::*;

verus! {

/// The next occurrence of a schedule, if it has one.
#[derive(Clone, Copy, Debug)]
pub struct Schedule {
    inner: Option<i64>,
}

impl View for Schedule {
    type V = Option<i64>;

    closed spec fn view(&self) -> Option<i64> {
        self.inner
    }
}

impl Schedule {
    /// A schedule whose next occurrence is at `at`.
    pub fn new(at: i64) -> (schedule: Schedule)
        ensures
            schedule@ == Some(at),
    {
        Schedule { inner: Some(at) }
    }

    /// A schedule without an occurrence: it has expired.
    pub fn default() -> (schedule: Schedule)
        ensures
            schedule@ is None,
    {
        Schedule { inner: None }
    }

    /// Whether there is an occurrence.
    pub fn has_schedule(&self) -> (has: bool)
        ensures
            has == self@ is Some,
    {
        self.inner.is_some()
    }

    /// The occurrence as an instant; -1 when there is none.
    pub fn to_timestamp(&self) -> (t: i64)
        ensures
            t == (match self@ {
                Some(at) => at,
                None => -1i64,
            }),
    {
        match self.inner {
            Some(at) => at,
            None => -1,
        }
    }

    /// The occurrence as `zone` shows it, if there is one.
    pub fn to_string(&self, zone: &Zone) -> (text: Option<String>)
        ensures
            text is Some <==> self@ is Some,
            text matches Some(t) ==> tells_time(*zone, self@->0, t@),
    {
        match self.inner {
            Some(at) => Some(time_text(zone, at)),
            None => None,
        }
    }

    /// The occurrence, if there is one.
    pub fn instant(&self) -> (at: Option<i64>)
        ensures
            at == self@,
    {
        self.inner
    }
}

/// The next occurrence of the schedule `cron` strictly after `after`, in `zone`.
pub fn get_next_schedule(cron: &str, zone: &Zone, after: i64) -> (schedule: Schedule)
    requires
        cron_accepts(cron@),
        zone.wf(),
        is_instant(after as int),
    ensures
        resolves(cron@, zone@, after, schedule@),
{
    match next_occurrence(cron, zone, after) {
        Some(at) => Schedule::new(at),
        None => Schedule::default(),
    }
}

/// `next` holds, for each alarm of the list, a next occurrence of its
/// schedule after `after` in `zone`.
pub open spec fn all_resolve(
    alarms: Seq<Alarm>,
    zone: Option<Seq<char>>,
    after: i64,
    next: Seq<Option<i64>>,
) -> bool {
    &&& next.len() == alarms.len()
    &&& forall|i: int|
        0 <= i < alarms.len() ==> resolves(alarms[i].cron@, zone, after, #[trigger] next[i])
}

/// Looks up the next occurrence after `after` of each alarm's schedule.
pub fn resolve_alarms(alarms: &Vec<Alarm>, zone: &Zone, after: i64) -> (next: Vec<Option<i64>>)
    requires
        alarms_wf(alarms@),
        zone.wf(),
        is_instant(after as int),
    ensures
        all_resolve(alarms@, zone@, after, next@),
{
    let mut next: Vec<Option<i64>> = Vec::new();
    let mut i: usize = 0;
    while i < alarms.len()
        invariant
            i <= alarms.len(),
            next.len() == i,
            alarms_wf(alarms@),
            zone.wf(),
            is_instant(after as int),
            forall|j: int|
                0 <= j < i ==> resolves(alarms@[j].cron@, zone@, after, #[trigger] next@[j]),
        decreases alarms.len() - i,
    {
        assert(alarms@[i as int].wf());
        let at = next_occurrence(alarms[i].cron.as_str(), zone, after);
        next.push(at);
        i += 1;
    }
    next
}

/// Whether a chat gets to see an alarm: a group chat sees the alarms that
/// were set in it, a private chat sees all.
pub open spec fn visible_in(alarm: Alarm, chat_id: i64) -> bool {
    chat_id >= 0 || alarm.chat_id == chat_id
}

/// Alarm `i` is visible in the chat and has a next occurrence that is not
/// before the epoch.
pub open spec fn is_upcoming(
    alarms: Seq<Alarm>,
    next: Seq<Option<i64>>,
    chat_id: i64,
    i: int,
) -> bool {
    &&& 0 <= i < alarms.len()
    &&& visible_in(alarms[i], chat_id)
    &&& next[i] is Some
    &&& next[i]->0 >= 0
}

/// `found` is the upcoming alarm with the earliest next occurrence, the
/// first in the list among several at the same instant; `None` if no alarm
/// is upcoming.
pub open spec fn is_nearest(
    alarms: Seq<Alarm>,
    next: Seq<Option<i64>>,
    chat_id: i64,
    found: Option<usize>,
) -> bool {
    match found {
        None => forall|i: int| !is_upcoming(alarms, next, chat_id, i),
        Some(k) => {
            &&& is_upcoming(alarms, next, chat_id, k as int)
            &&& forall|i: int| #[trigger]
                is_upcoming(alarms, next, chat_id, i) ==> next[k as int]->0 < next[i]->0 || (next[k as int]->0
                    == next[i]->0 && k <= i)
        },
    }
}

/// There is one nearest upcoming alarm at most.
pub proof fn lemma_nearest_is_unique(
    alarms: Seq<Alarm>,
    next: Seq<Option<i64>>,
    chat_id: i64,
    a: Option<usize>,
    b: Option<usize>,
)
    requires
        is_nearest(alarms, next, chat_id, a),
        is_nearest(alarms, next, chat_id, b),
    ensures
        a == b,
{
    match (a, b) {
        (Some(x), Some(y)) => {
            assert(is_upcoming(alarms, next, chat_id, x as int));
            assert(is_upcoming(alarms, next, chat_id, y as int));
        },
        (Some(x), None) => {
            assert(is_upcoming(alarms, next, chat_id, x as int));
        },
        (None, Some(y)) => {
            assert(is_upcoming(alarms, next, chat_id, y as int));
        },
        (None, None) => {},
    }
}

/// The nearest upcoming alarm that the chat gets to see: the one of which
/// `is_nearest` holds.
pub open spec fn nearest_upcoming(
    alarms: Seq<Alarm>,
    next: Seq<Option<i64>>,
    chat_id: i64,
) -> Option<usize> {
    choose|found: Option<usize>| is_nearest(alarms, next, chat_id, found)
}

/// The nearest upcoming alarm that the chat gets to see.
pub fn nearest(alarms: &Vec<Alarm>, next: &Vec<Option<i64>>, chat_id: i64) -> (found: Option<
    usize,
>)
    requires
        next.len() == alarms.len(),
    ensures
        is_nearest(alarms@, next@, chat_id, found),
        found == nearest_upcoming(alarms@, next@, chat_id),
{
    let mut found: Option<usize> = None;
    let mut i: usize = 0;
    while i < alarms.len()
        invariant
            i <= alarms.len(),
            next.len() == alarms.len(),
            is_nearest(alarms@.take(i as int), next@.take(i as int), chat_id, found),
        decreases alarms.len() - i,
    {
        let ghost before = found;
        if chat_id >= 0 || alarms[i].chat_id == chat_id {
            match next[i] {
                Some(t) if t >= 0 => {
                    let better = match found {
                        None => true,
                        Some(k) => {
                            assert(is_upcoming(
                                alarms@.take(i as int),
                                next@.take(i as int),
                                chat_id,
                                k as int,
                            ));
                            match next[k] {
                                Some(best) => t < best,
                                None => true,
                            }
                        },
                    };
                    if better {
                        found = Some(i);
                    }
                },
                _ => {},
            }
        }
        proof {
            let a0 = alarms@.take(i as int);
            let n0 = next@.take(i as int);
            let a1 = alarms@.take(i + 1);
            let n1 = next@.take(i + 1);
            assert forall|j: int| is_upcoming(a1, n1, chat_id, j) <==> (is_upcoming(
                a0,
                n0,
                chat_id,
                j,
            ) || (j == i && is_upcoming(alarms@, next@, chat_id, i as int))) by {}
            match found {
                None => {},
                Some(k) => {
                    assert forall|j: int| #[trigger]
                        is_upcoming(a1, n1, chat_id, j) implies n1[k as int]->0 < n1[j]->0 || (n1[k as int]->0
                        == n1[j]->0 && k <= j) by {
                        if j < i {
                            assert(is_upcoming(a0, n0, chat_id, j));
                        }
                    }
                },
            }
        }
        i += 1;
    }
    assert(alarms@.take(i as int) =~= alarms@);
    assert(next@.take(i as int) =~= next@);
    proof {
        lemma_nearest_is_unique(
            alarms@,
            next@,
            chat_id,
            found,
            nearest_upcoming(alarms@, next@, chat_id),
        );
    }
    found
}

/// Which alarm goes off next, and when: a place in the user's list and an
/// instant.
#[derive(Clone, Copy, Debug)]
pub struct AlarmSchedule {
    inner: Option<(i64, usize)>,
}

impl View for AlarmSchedule {
    type V = Option<(i64, usize)>;

    closed spec fn view(&self) -> Option<(i64, usize)> {
        self.inner
    }
}

impl AlarmSchedule {
    /// Alarm `alarm` of the list goes off at `at`.
    pub fn new(at: i64, alarm: usize) -> (schedule: AlarmSchedule)
        ensures
            schedule@ == Some((at, alarm)),
    {
        AlarmSchedule { inner: Some((at, alarm)) }
    }

    /// No alarm goes off.
    pub fn default() -> (schedule: AlarmSchedule)
        ensures
            schedule@ is None,
    {
        AlarmSchedule { inner: None }
    }

    /// When the alarm goes off.
    pub fn schedule(&self) -> (schedule: Schedule)
        ensures
            schedule@ == (match self@ {
                Some(found) => Some(found.0),
                None => None,
            }),
    {
        match self.inner {
            Some(found) => Schedule::new(found.0),
            None => Schedule::default(),
        }
    }

    /// The place of the alarm in the user's list.
    pub fn alarm(&self) -> (alarm: Option<usize>)
        ensures
            alarm == (match self@ {
                Some(found) => Some(found.1),
                None => None,
            }),
    {
        match self.inner {
            Some(found) => Some(found.1),
            None => None,
        }
    }
}

/// `found` is the nearest upcoming alarm, with its next occurrence.
pub open spec fn is_recent_schedule(
    alarms: Seq<Alarm>,
    next: Seq<Option<i64>>,
    chat_id: i64,
    found: Option<(i64, usize)>,
) -> bool {
    match found {
        None => is_nearest(alarms, next, chat_id, None),
        Some(f) => is_nearest(alarms, next, chat_id, Some(f.1)) && next[f.1 as int] == Some(f.0),
    }
}

/// The nearest upcoming alarm that the chat gets to see, given the next
/// occurrence of each alarm.
pub fn recent_schedule(alarms: &Vec<Alarm>, next: &Vec<Option<i64>>, chat_id: i64) -> (found:
    AlarmSchedule)
    requires
        next.len() == alarms.len(),
    ensures
        is_recent_schedule(alarms@, next@, chat_id, found@),
{
    match nearest(alarms, next, chat_id) {
        None => AlarmSchedule::default(),
        Some(k) => {
            assert(is_upcoming(alarms@, next@, chat_id, k as int));
            match next[k] {
                Some(at) => AlarmSchedule::new(at, k),
                None => AlarmSchedule::default(),
            }
        },
    }
}

/// The nearest upcoming alarm that the chat gets to see, with occurrences
/// looked up after `after` in `zone`.
pub fn get_recent_schedule(alarms: &Vec<Alarm>, zone: &Zone, chat_id: i64, after: i64) -> (found:
    AlarmSchedule)
    requires
        alarms_wf(alarms@),
        zone.wf(),
        is_instant(after as int),
    ensures
        exists|next: Seq<Option<i64>>| #[trigger]
            all_resolve(alarms@, zone@, after, next) && is_recent_schedule(
                alarms@,
                next,
                chat_id,
                found@,
            ),
{
    let next = resolve_alarms(alarms, zone, after);
    recent_schedule(alarms, &next, chat_id)
}

} // verus!
