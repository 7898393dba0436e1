//! The per-tick reminder decision and its day-rollover bookkeeping.
//!
//! Policy: a reminder is due when the user has been inactive for at least
//! `INACTIVITY_THRESHOLD_HOURS` whole hours, within the configured active
//! hours, while the daily quota is not used up. A second, independent policy
//! (`should_send_streak_protection_reminder`) fires at a fixed local time of
//! day regardless of activity; the two are not combined.

use crate::activity::ActivityData;
use crate::config::NotificationConfig;
use crate::stamp::{local_now, whole_hours_between, Stamp};
use vstd::prelude::*;

verus! {

/// Whole hours of inactivity after which a reminder is due.
pub const INACTIVITY_THRESHOLD_HOURS: i64 = 12;

/// Waking hours (inclusive) of the streak-protection policy.
pub const STREAK_WAKING_START_HOUR: u32 = 8;

pub const STREAK_WAKING_END_HOUR: u32 = 22;

/// Local hour at which the streak-protection reminder fires.
pub const STREAK_PROTECTION_HOUR: u32 = 18;

/// The reminder fires only within this many minutes after the hour starts.
pub const STREAK_PROTECTION_MINUTES: u32 = 5;

/// The outcome of one tick.
#[derive(Clone, Copy, Debug, PartialEq, Eq, Structural)]
pub enum TickDecision {
    /// Reminders are switched off; nothing was touched.
    Disabled,
    /// The local hour lies outside the active window; nothing was touched.
    OutsideActiveHours,
    /// The day's quota is used up.
    QuotaReached,
    /// The user was active too recently.
    RecentlyActive,
    /// A reminder is due; it has been counted against the quota.
    Notify,
}

impl TickDecision {
    /// Whether a reminder should be dispatched.
    pub fn should_notify(&self) -> (r: bool)
        ensures
            r == (*self == TickDecision::Notify),
    {
        match self {
            TickDecision::Notify => true,
            _ => false,
        }
    }

    /// The tick got past the switch and the active-hours check, so it may
    /// have changed the counter, which must then be persisted.
    pub open spec fn evaluated(self) -> bool {
        self != TickDecision::Disabled && self != TickDecision::OutsideActiveHours
    }

    /// Whether the tick may have changed the counter.
    pub fn needs_persisting(&self) -> (r: bool)
        ensures
            r == self.evaluated(),
    {
        match self {
            TickDecision::Disabled => false,
            TickDecision::OutsideActiveHours => false,
            _ => true,
        }
    }
}

/// The daily reminder counter and the instant that opened its day.
#[derive(Clone, Copy, Debug, PartialEq, Eq, Structural)]
pub struct Quota {
    pub sent_today: u32,
    pub day_opened: Option<Stamp>,
}

/// The counter part of an activity record.
pub open spec fn quota_of(a: ActivityData) -> Quota {
    Quota { sent_today: a.notifications_sent_today, day_opened: a.last_notification_date }
}

/// The local hour of `now` lies within the inclusive active window.
pub open spec fn in_active_hours(c: NotificationConfig, now: Stamp) -> bool {
    c.reminder_start_hour <= now.local_hour() <= c.reminder_end_hour
}

/// A tick at `now` gets past the switch and the active-hours check.
pub open spec fn tick_evaluates(c: NotificationConfig, now: Stamp) -> bool {
    c.enabled && in_active_hours(c, now)
}

/// `now` falls on another local date than the one that opened the count, or none did.
pub open spec fn opens_new_day(opened: Option<Stamp>, now: Stamp) -> bool {
    match opened {
        Some(d) => d.local_day() != now.local_day(),
        None => true,
    }
}

/// The counter after the rollover step of a tick at `now`.
pub open spec fn quota_rolled(c: NotificationConfig, q: Quota, now: Stamp) -> Quota {
    if tick_evaluates(c, now) && opens_new_day(q.day_opened, now) {
        Quota { sent_today: 0, day_opened: Some(now) }
    } else {
        q
    }
}

/// The decision of a tick at `now`.
pub open spec fn tick_decision(
    c: NotificationConfig,
    last_activity: Stamp,
    q: Quota,
    now: Stamp,
) -> TickDecision {
    if !c.enabled {
        TickDecision::Disabled
    } else if !in_active_hours(c, now) {
        TickDecision::OutsideActiveHours
    } else if quota_rolled(c, q, now).sent_today >= c.max_reminders_per_day {
        TickDecision::QuotaReached
    } else if whole_hours_between(now, last_activity) >= INACTIVITY_THRESHOLD_HOURS {
        TickDecision::Notify
    } else {
        TickDecision::RecentlyActive
    }
}

/// The counter after a tick at `now`.
pub open spec fn quota_after_tick(
    c: NotificationConfig,
    last_activity: Stamp,
    q: Quota,
    now: Stamp,
) -> Quota {
    let r = quota_rolled(c, q, now);
    if tick_decision(c, last_activity, q, now) == TickDecision::Notify {
        Quota { sent_today: (r.sent_today + 1) as u32, day_opened: r.day_opened }
    } else {
        r
    }
}


/// The counter after ticks at the given `(now, last_activity)` pairs, in order.
pub open spec fn quota_after_ticks(c: NotificationConfig, q: Quota, ticks: Seq<(Stamp, Stamp)>) -> Quota
    decreases ticks.len(),
{
    if ticks.len() == 0 {
        q
    } else {
        let t = ticks.last();
        quota_after_tick(c, t.1, quota_after_ticks(c, q, ticks.drop_last()), t.0)
    }
}

/// With reminders switched off, a tick never notifies and leaves the counter
/// as it was, whatever the activity.
pub proof fn disabled_never_notifies(c: NotificationConfig, last_activity: Stamp, q: Quota, now: Stamp)
    requires
        !c.enabled,
    ensures
        tick_decision(c, last_activity, q, now) != TickDecision::Notify,
        quota_after_tick(c, last_activity, q, now) == q,
{
}

/// A tick whose local hour lies outside the active window never notifies and
/// leaves the counter as it was.
pub proof fn outside_hours_never_notifies(
    c: NotificationConfig,
    last_activity: Stamp,
    q: Quota,
    now: Stamp,
)
    requires
        now.local_hour() < c.reminder_start_hour || now.local_hour() > c.reminder_end_hour,
    ensures
        tick_decision(c, last_activity, q, now) != TickDecision::Notify,
        quota_after_tick(c, last_activity, q, now) == q,
{
}

/// The counter is reset to zero exactly on an evaluating tick whose local date
/// differs from that of the instant that opened the count (or when none did);
/// on every other tick it keeps its value. Either way a due reminder then adds one.
pub proof fn counter_resets_only_on_new_day(
    c: NotificationConfig,
    last_activity: Stamp,
    q: Quota,
    now: Stamp,
)
    ensures
        ({
            let after = quota_after_tick(c, last_activity, q, now);
            let base: int = if tick_evaluates(c, now) && opens_new_day(q.day_opened, now) {
                0
            } else {
                q.sent_today as int
            };
            let added: int = if tick_decision(c, last_activity, q, now) == TickDecision::Notify {
                1
            } else {
                0
            };
            &&& after.sent_today == base + added
            &&& after.day_opened == (if tick_evaluates(c, now) && opens_new_day(q.day_opened, now) {
                Some(now)
            } else {
                q.day_opened
            })
        }),
{
}

proof fn lemma_quota_stays_full(c: NotificationConfig, q: Quota, ticks: Seq<(Stamp, Stamp)>, opened: Stamp)
    requires
        q.sent_today == c.max_reminders_per_day,
        q.day_opened == Some(opened),
        forall|i: int| 0 <= i < ticks.len() ==> (#[trigger] ticks[i]).0.local_day() == opened.local_day(),
    ensures
        quota_after_ticks(c, q, ticks) == q,
    decreases ticks.len(),
{
    if ticks.len() > 0 {
        let d = ticks.drop_last();
        assert forall|i: int| 0 <= i < d.len() implies (#[trigger] d[i]).0.local_day() == opened.local_day() by {
            assert(d[i] == ticks[i]);
        }
        lemma_quota_stays_full(c, q, d, opened);
        assert(ticks.last() == ticks[ticks.len() - 1]);
    }
}

/// Once the day's quota is used up, no tick on the same local date notifies,
/// and the counter stays as it is, whatever activity is recorded between ticks.
/// Each tick is a pair of its instant and the last activity it sees.
pub proof fn full_quota_blocks_rest_of_day(
    c: NotificationConfig,
    q: Quota,
    ticks: Seq<(Stamp, Stamp)>,
    opened: Stamp,
)
    requires
        q.sent_today == c.max_reminders_per_day,
        q.day_opened == Some(opened),
        forall|i: int| 0 <= i < ticks.len() ==> (#[trigger] ticks[i]).0.local_day() == opened.local_day(),
    ensures
        forall|i: int|
            0 <= i < ticks.len() ==> tick_decision(
                c,
                (#[trigger] ticks[i]).1,
                quota_after_ticks(c, q, ticks.take(i)),
                ticks[i].0,
            ) != TickDecision::Notify,
        quota_after_ticks(c, q, ticks) == q,
{
    lemma_quota_stays_full(c, q, ticks, opened);
    assert forall|i: int|
        0 <= i < ticks.len() implies tick_decision(
        c,
        (#[trigger] ticks[i]).1,
        quota_after_ticks(c, q, ticks.take(i)),
        ticks[i].0,
    ) != TickDecision::Notify by {
        let p = ticks.take(i);
        assert forall|k: int| 0 <= k < p.len() implies (#[trigger] p[k]).0.local_day() == opened.local_day() by {
            assert(p[k] == ticks[k]);
        }
        lemma_quota_stays_full(c, q, p, opened);
    }
}

/// The streak-protection policy: a reminder is due once a day, in the first
/// minutes of its fixed local hour, which lies within fixed waking hours.
pub open spec fn streak_protection_due(now: Stamp) -> bool {
    &&& STREAK_WAKING_START_HOUR <= now.local_hour() <= STREAK_WAKING_END_HOUR
    &&& now.local_hour() == STREAK_PROTECTION_HOUR
    &&& now.local_minute() < STREAK_PROTECTION_MINUTES
}

/// Whether the streak-protection reminder is due at `now`.
pub fn should_send_streak_protection_reminder(now: &Stamp) -> (r: bool)
    requires
        now.wf(),
    ensures
        r == streak_protection_due(*now),
{
    let hour: u32 = now.local_hour_of_day();
    if hour < STREAK_WAKING_START_HOUR || hour > STREAK_WAKING_END_HOUR {
        return false;
    }
    hour == STREAK_PROTECTION_HOUR && now.local_minute_of_hour() < STREAK_PROTECTION_MINUTES
}

/// Whether the streak-protection reminder is due at the current instant.
pub fn should_send_streak_protection_reminder_now() -> (r: bool)
    ensures
        exists|now: Stamp| #![trigger streak_protection_due(now)] now.wf() && r == streak_protection_due(now),
{
    let now = local_now();
    should_send_streak_protection_reminder(&now)
}

/// Runs one tick at `now`: rolls the counter over on a new local date, decides,
/// and counts a due reminder against the quota.
pub fn evaluate_tick(config: &NotificationConfig, activity: &mut ActivityData, now: Stamp) -> (d:
    TickDecision)
    requires
        old(activity).wf(),
        now.wf(),
    ensures
        final(activity).wf(),
        d == tick_decision(*config, old(activity).last_activity, quota_of(*old(activity)), now),
        !d.evaluated() ==> quota_of(*final(activity)) == quota_of(*old(activity)),
        quota_of(*final(activity)) == quota_after_tick(
            *config,
            old(activity).last_activity,
            quota_of(*old(activity)),
            now,
        ),
        final(activity).last_activity == old(activity).last_activity,
        final(activity).daily_sessions@ == old(activity).daily_sessions@,
        final(activity).habit_completions@ == old(activity).habit_completions@,
{
    if !config.enabled {
        return TickDecision::Disabled;
    }
    let hour: u32 = now.local_hour_of_day();
    if hour < config.reminder_start_hour || hour > config.reminder_end_hour {
        return TickDecision::OutsideActiveHours;
    }
    let new_day: bool = match activity.last_notification_date {
        Some(last) => !last.same_local_date(&now),
        None => true,
    };
    if new_day {
        activity.notifications_sent_today = 0;
        activity.last_notification_date = Some(now);
    }
    if activity.notifications_sent_today >= config.max_reminders_per_day {
        return TickDecision::QuotaReached;
    }
    if now.hours_since(&activity.last_activity) >= INACTIVITY_THRESHOLD_HOURS {
        activity.notifications_sent_today = activity.notifications_sent_today + 1;
        TickDecision::Notify
    } else {
        TickDecision::RecentlyActive
    }
}

/// Runs one tick at the current instant.
pub fn evaluate_tick_now(config: &NotificationConfig, activity: &mut ActivityData) -> (d:
    TickDecision)
    requires
        old(activity).wf(),
    ensures
        final(activity).wf(),
        !d.evaluated() ==> quota_of(*final(activity)) == quota_of(*old(activity)),
        exists|now: Stamp|
            #![trigger tick_decision(*config, old(activity).last_activity, quota_of(*old(activity)), now)]
            now.wf() && d == tick_decision(
                *config,
                old(activity).last_activity,
                quota_of(*old(activity)),
                now,
            ) && quota_of(*final(activity)) == quota_after_tick(
                *config,
                old(activity).last_activity,
                quota_of(*old(activity)),
                now,
            ),
        final(activity).last_activity == old(activity).last_activity,
        final(activity).daily_sessions@ == old(activity).daily_sessions@,
        final(activity).habit_completions@ == old(activity).habit_completions@,
{
    let now = local_now();
    evaluate_tick(config, activity, now)
}

} // verus!
