//! Tracked user activity: the last interaction, the recent sessions, the last
//! completion of each habit, and the daily reminder counter.

use crate::stamp::{local_now, Stamp};
use vstd::prelude::*;

verus! {

/// Sessions more than this many nanoseconds (24 hours) older than the latest
/// one are dropped.
pub const SESSION_WINDOW_NANOS: i128 = 86400000000000;

/// `s` lies at most 24 hours before `now` (or after it).
pub open spec fn within_window(now: Stamp, s: Stamp) -> bool {
    now.nanos_since(s) <= SESSION_WINDOW_NANOS
}

/// The last completion time of one habit.
#[derive(Clone, Debug)]
pub struct HabitCompletion {
    pub habit_id: String,
    pub completed_at: Stamp,
}

/// What the scheduler knows of the user's activity.
#[derive(Clone, Debug)]
pub struct ActivityData {
    /// The most recent recorded interaction.
    pub last_activity: Stamp,
    /// Recorded interactions of the trailing day, oldest first.
    pub daily_sessions: Vec<Stamp>,
    /// One entry per habit id, holding its last completion.
    pub habit_completions: Vec<HabitCompletion>,
    /// Reminders sent on the local date of `last_notification_date`.
    pub notifications_sent_today: u32,
    /// The instant that opened the current counting day, if any.
    pub last_notification_date: Option<Stamp>,
}

/// The sessions of `s`, in order, that lie within the retention window before `now`.
pub open spec fn sessions_kept(s: Seq<Stamp>, now: Stamp) -> Seq<Stamp>
    decreases s.len(),
{
    if s.len() == 0 {
        Seq::empty()
    } else {
        let rest = sessions_kept(s.drop_last(), now);
        if within_window(now, s.last()) {
            rest.push(s.last())
        } else {
            rest
        }
    }
}

/// The session list after recording an interaction at `now`.
pub open spec fn sessions_after_record(s: Seq<Stamp>, now: Stamp) -> Seq<Stamp> {
    sessions_kept(s.push(now), now)
}

/// The mapping from habit id to last completion that a list of entries holds.
pub open spec fn completion_map(s: Seq<HabitCompletion>) -> Map<Seq<char>, Stamp>
    decreases s.len(),
{
    if s.len() == 0 {
        Map::empty()
    } else {
        completion_map(s.drop_last()).insert(s.last().habit_id@, s.last().completed_at)
    }
}

pub open spec fn ids_distinct(s: Seq<HabitCompletion>) -> bool {
    forall|i: int, j: int| 0 <= i < j < s.len() ==> s[i].habit_id@ != s[j].habit_id@
}

pub open spec fn stamps_wf(s: Seq<Stamp>) -> bool {
    forall|i: int| 0 <= i < s.len() ==> (#[trigger] s[i]).wf()
}

pub open spec fn completions_wf(s: Seq<HabitCompletion>) -> bool {
    forall|i: int| 0 <= i < s.len() ==> (#[trigger] s[i]).completed_at.wf()
}

pub open spec fn opt_stamp_wf(o: Option<Stamp>) -> bool {
    match o {
        Some(d) => d.wf(),
        None => true,
    }
}

proof fn lemma_completion_map_update(s: Seq<HabitCompletion>, i: int, x: HabitCompletion)
    requires
        0 <= i < s.len(),
        ids_distinct(s),
        s[i].habit_id@ == x.habit_id@,
    ensures
        completion_map(s.update(i, x)) == completion_map(s).insert(x.habit_id@, x.completed_at),
    decreases s.len(),
{
    let t = s.update(i, x);
    let n = s.len() - 1;
    if i == n {
        assert(t.drop_last() =~= s.drop_last());
        assert(completion_map(t) =~= completion_map(s).insert(x.habit_id@, x.completed_at));
    } else {
        assert(t.drop_last() =~= s.drop_last().update(i, x));
        lemma_completion_map_update(s.drop_last(), i, x);
        assert(s[i].habit_id@ != s[n].habit_id@);
        assert(completion_map(t) =~= completion_map(s).insert(x.habit_id@, x.completed_at));
    }
}

proof fn lemma_sessions_kept_all(s: Seq<Stamp>, now: Stamp)
    requires
        forall|i: int| 0 <= i < s.len() ==> within_window(now, #[trigger] s[i]),
    ensures
        sessions_kept(s, now) == s,
    decreases s.len(),
{
    if s.len() > 0 {
        let d = s.drop_last();
        assert forall|i: int| 0 <= i < d.len() implies within_window(now, #[trigger] d[i]) by {
            assert(d[i] == s[i]);
        }
        lemma_sessions_kept_all(d, now);
        assert(s.last() == s[s.len() - 1]);
        assert(d.push(s.last()) =~= s);
    }
}

proof fn lemma_sessions_kept_props(s: Seq<Stamp>, now: Stamp)
    ensures
        forall|i: int| 0 <= i < sessions_kept(s, now).len() ==> within_window(now, #[trigger] sessions_kept(s, now)[i]),
        stamps_wf(s) ==> stamps_wf(sessions_kept(s, now)),
    decreases s.len(),
{
    if s.len() > 0 {
        lemma_sessions_kept_props(s.drop_last(), now);
        if stamps_wf(s) {
            assert(stamps_wf(s.drop_last())) by {
                assert forall|i: int| 0 <= i < s.drop_last().len() implies (#[trigger] s.drop_last()[i]).wf() by {
                    assert(s.drop_last()[i] == s[i]);
                }
            }
            assert(s.last() == s[s.len() - 1]);
        }
    }
}


/// The session list after recording interactions at `times`, in order.
pub open spec fn sessions_after_records(s: Seq<Stamp>, times: Seq<Stamp>) -> Seq<Stamp>
    decreases times.len(),
{
    if times.len() == 0 {
        s
    } else {
        sessions_after_record(sessions_after_records(s, times.drop_last()), times.last())
    }
}

/// Recording interactions at `times`, starting from no sessions, when no two of
/// them lie more than the window apart, keeps every one of them: the session
/// list is exactly `times`, each within the window of the latest.
pub proof fn records_within_window_all_kept(times: Seq<Stamp>)
    requires
        forall|i: int, j: int|
            0 <= i < j < times.len() ==> within_window(times[j], times[i]),
    ensures
        sessions_after_records(Seq::empty(), times) == times,
        times.len() > 0 ==> forall|i: int|
            0 <= i < times.len() ==> within_window(times.last(), #[trigger] times[i]),
    decreases times.len(),
{
    if times.len() > 0 {
        let d = times.drop_last();
        let n = times.len() - 1;
        assert forall|i: int, j: int|
            0 <= i < j < d.len() implies within_window(d[j], d[i]) by {
            assert(d[j] == times[j] && d[i] == times[i]);
        }
        records_within_window_all_kept(d);
        assert(times.last() == times[n]);
        assert(d.push(times.last()) =~= times);
        assert forall|i: int|
            0 <= i < times.len() implies within_window(times.last(), #[trigger] times[i]) by {
            if i < n {
                assert(within_window(times[n], times[i]));
            }
        }
        lemma_sessions_kept_all(times, times.last());
    }
}

/// After an interaction is recorded at `now`, the sessions are exactly those of
/// the old list, and `now` itself, that lie within the window before `now`:
/// every older one is gone.
pub proof fn record_keeps_exactly_window(s: Seq<Stamp>, now: Stamp)
    ensures
        forall|x: Stamp|
            sessions_after_record(s, now).contains(x) <==> (s.push(now).contains(x)
                && within_window(now, x)),
        sessions_after_record(s, now).last() == now,
{
    lemma_sessions_kept_contains(s.push(now), now);
    assert(s.push(now).drop_last() =~= s);
}

proof fn lemma_sessions_kept_contains(s: Seq<Stamp>, now: Stamp)
    ensures
        forall|x: Stamp|
            sessions_kept(s, now).contains(x) <==> (s.contains(x) && within_window(now, x)),
    decreases s.len(),
{
    if s.len() > 0 {
        let d = s.drop_last();
        lemma_sessions_kept_contains(d, now);
        assert(d.push(s.last()) =~= s);
        assert forall|x: Stamp| s.contains(x) <==> (d.contains(x) || x == s.last()) by {
            if s.contains(x) {
                let k = choose|k: int| 0 <= k < s.len() && s[k] == x;
                if k < d.len() {
                    assert(d[k] == x);
                }
            }
            if d.contains(x) {
                let k = choose|k: int| 0 <= k < d.len() && d[k] == x;
                assert(s[k] == x);
            }
            if x == s.last() {
                assert(s[s.len() - 1] == x);
            }
        }
        let r = sessions_kept(d, now);
        assert forall|x: Stamp| r.push(s.last()).contains(x) <==> (r.contains(x) || x == s.last()) by {
            if r.push(s.last()).contains(x) {
                let k = choose|k: int| 0 <= k < r.len() + 1 && r.push(s.last())[k] == x;
                if k < r.len() {
                    assert(r[k] == x);
                }
            }
            if r.contains(x) {
                let k = choose|k: int| 0 <= k < r.len() && r[k] == x;
                assert(r.push(s.last())[k] == x);
            }
            if x == s.last() {
                assert(r.push(s.last())[r.len() as int] == x);
            }
        }
    }
}

impl ActivityData {
    /// Every instant is well formed and each habit id appears once.
    pub open spec fn wf(&self) -> bool {
        &&& self.last_activity.wf()
        &&& stamps_wf(self.daily_sessions@)
        &&& completions_wf(self.habit_completions@)
        &&& ids_distinct(self.habit_completions@)
        &&& opt_stamp_wf(self.last_notification_date)
    }

    /// The habit-completion mapping.
    pub open spec fn completions(&self) -> Map<Seq<char>, Stamp> {
        completion_map(self.habit_completions@)
    }

    /// Fresh activity data whose last interaction is `now`.
    pub fn new_at(now: Stamp) -> (r: ActivityData)
        requires
            now.wf(),
        ensures
            r.wf(),
            r.last_activity == now,
            r.daily_sessions@ == Seq::<Stamp>::empty(),
            r.completions() == Map::<Seq<char>, Stamp>::empty(),
            r.notifications_sent_today == 0,
            r.last_notification_date == None::<Stamp>,
    {
        ActivityData {
            last_activity: now,
            daily_sessions: Vec::new(),
            habit_completions: Vec::new(),
            notifications_sent_today: 0,
            last_notification_date: None,
        }
    }


    /// Whether every instant is well formed and each habit id appears once;
    /// used to vet a record that was read back from storage.
    pub fn is_well_formed(&self) -> (r: bool)
        ensures
            r == self.wf(),
    {
        if Stamp::new(self.last_activity.secs, self.last_activity.nanos, self.last_activity.offset).is_none() {
            return false;
        }
        match self.last_notification_date {
            Some(d) => {
                if Stamp::new(d.secs, d.nanos, d.offset).is_none() {
                    return false;
                }
            },
            None => {},
        }
        let n: usize = self.daily_sessions.len();
        let mut i: usize = 0;
        while i < n
            invariant
                n == self.daily_sessions@.len(),
                0 <= i <= n,
                forall|k: int| 0 <= k < i ==> (#[trigger] self.daily_sessions@[k]).wf(),
            decreases n - i,
        {
            let s: Stamp = self.daily_sessions[i];
            if Stamp::new(s.secs, s.nanos, s.offset).is_none() {
                return false;
            }
            i += 1;
        }
        let m: usize = self.habit_completions.len();
        let mut j: usize = 0;
        while j < m
            invariant
                m == self.habit_completions@.len(),
                0 <= j <= m,
                forall|k: int| 0 <= k < j ==> (#[trigger] self.habit_completions@[k]).completed_at.wf(),
                forall|a: int, b: int|
                    0 <= a < b < j ==> self.habit_completions@[a].habit_id@
                        != self.habit_completions@[b].habit_id@,
            decreases m - j,
        {
            let s: Stamp = self.habit_completions[j].completed_at;
            if Stamp::new(s.secs, s.nanos, s.offset).is_none() {
                return false;
            }
            let mut k: usize = 0;
            while k < j
                invariant
                    m == self.habit_completions@.len(),
                    0 <= k <= j < m,
                    forall|a: int|
                        0 <= a < k ==> self.habit_completions@[a].habit_id@
                            != self.habit_completions@[j as int].habit_id@,
                decreases j - k,
            {
                if self.habit_completions[k].habit_id == self.habit_completions[j].habit_id {
                    assert(!ids_distinct(self.habit_completions@));
                    return false;
                }
                k += 1;
            }
            j += 1;
        }
        true
    }

    /// Records an interaction at `now`: it becomes the last activity and a
    /// new session, and sessions more than the window before `now` are dropped.
    pub fn record_activity_at(&mut self, now: Stamp)
        requires
            old(self).wf(),
            now.wf(),
        ensures
            final(self).wf(),
            final(self).last_activity == now,
            final(self).daily_sessions@ == sessions_after_record(old(self).daily_sessions@, now),
            final(self).habit_completions@ == old(self).habit_completions@,
            final(self).notifications_sent_today == old(self).notifications_sent_today,
            final(self).last_notification_date == old(self).last_notification_date,
    {
        self.last_activity = now;
        self.daily_sessions.push(now);
        let ghost all = self.daily_sessions@;
        assert(all == old(self).daily_sessions@.push(now));
        let mut kept: Vec<Stamp> = Vec::new();
        let n: usize = self.daily_sessions.len();
        let mut i: usize = 0;
        while i < n
            invariant
                n == all.len(),
                self.daily_sessions@ == all,
                0 <= i <= n,
                stamps_wf(all),
                now.wf(),
                kept@ == sessions_kept(all.subrange(0, i as int), now),
            decreases n - i,
        {
            let s: Stamp = self.daily_sessions[i];
            assert(all.subrange(0, i as int + 1).drop_last() =~= all.subrange(0, i as int));
            assert(all.subrange(0, i as int + 1).last() == s);
            if now.elapsed_nanos(&s) <= SESSION_WINDOW_NANOS {
                kept.push(s);
            }
            i += 1;
        }
        assert(all.subrange(0, n as int) =~= all);
        proof {
            lemma_sessions_kept_props(all, now);
        }
        self.daily_sessions = kept;
    }

    /// Records an interaction at the current instant; the new `last_activity`
    /// is that instant.
    pub fn record_activity(&mut self)
        requires
            old(self).wf(),
        ensures
            final(self).wf(),
            final(self).daily_sessions@ == sessions_after_record(
                old(self).daily_sessions@,
                final(self).last_activity,
            ),
            final(self).habit_completions@ == old(self).habit_completions@,
            final(self).notifications_sent_today == old(self).notifications_sent_today,
            final(self).last_notification_date == old(self).last_notification_date,
    {
        let now = local_now();
        self.record_activity_at(now);
    }

    /// Sets the last completion of `habit_id` to `now`, inserting or overwriting.
    pub fn record_habit_completion_at(&mut self, habit_id: String, now: Stamp)
        requires
            old(self).wf(),
            now.wf(),
        ensures
            final(self).wf(),
            final(self).completions() == old(self).completions().insert(habit_id@, now),
            final(self).last_activity == old(self).last_activity,
            final(self).daily_sessions@ == old(self).daily_sessions@,
            final(self).notifications_sent_today == old(self).notifications_sent_today,
            final(self).last_notification_date == old(self).last_notification_date,
    {
        let n: usize = self.habit_completions.len();
        let mut i: usize = 0;
        while i < n
            invariant
                n == self.habit_completions@.len(),
                0 <= i <= n,
                *self == *old(self),
                old(self).wf(),
                now.wf(),
                forall|j: int| 0 <= j < i ==> self.habit_completions@[j].habit_id@ != habit_id@,
            decreases n - i,
        {
            if self.habit_completions[i].habit_id == habit_id {
                let entry = HabitCompletion { habit_id, completed_at: now };
                proof {
                    lemma_completion_map_update(self.habit_completions@, i as int, entry);
                }
                self.habit_completions[i] = entry;
                assert(self.habit_completions@ == old(self).habit_completions@.update(i as int, entry));
                assert(ids_distinct(self.habit_completions@));
                assert(completions_wf(self.habit_completions@));
                return;
            }
            i += 1;
        }
        let entry = HabitCompletion { habit_id, completed_at: now };
        self.habit_completions.push(entry);
        assert(self.habit_completions@.drop_last() =~= old(self).habit_completions@);
    }

    /// Sets the last completion of `habit_id` to the current instant.
    pub fn record_habit_completion(&mut self, habit_id: String)
        requires
            old(self).wf(),
        ensures
            final(self).wf(),
            exists|now: Stamp|
                now.wf() && final(self).completions() == old(self).completions().insert(
                    habit_id@,
                    now,
                ),
            final(self).last_activity == old(self).last_activity,
            final(self).daily_sessions@ == old(self).daily_sessions@,
            final(self).notifications_sent_today == old(self).notifications_sent_today,
            final(self).last_notification_date == old(self).last_notification_date,
    {
        let now = local_now();
        self.record_habit_completion_at(habit_id, now);
    }
}

impl Default for ActivityData {
    /// Fresh activity data whose last interaction is the current instant.
    fn default() -> (r: Self)
        ensures
            r.wf(),
            r.daily_sessions@ == Seq::<Stamp>::empty(),
            r.completions() == Map::<Seq<char>, Stamp>::empty(),
            r.notifications_sent_today == 0,
            r.last_notification_date == None::<Stamp>,
    {
        ActivityData::new_at(local_now())
    }
}

} // verus!
