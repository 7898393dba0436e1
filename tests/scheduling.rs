use habit_reminders::activity::{ActivityData, HabitCompletion};
use habit_reminders::config::NotificationConfig;
use habit_reminders::scheduler::{
    evaluate_tick, evaluate_tick_now, should_send_streak_protection_reminder,
    should_send_streak_protection_reminder_now, TickDecision,
};
use habit_reminders::stamp::Stamp;

const DAY: i64 = 20_000;

fn at(day: i64, hour: i64, minute: i64) -> Stamp {
    Stamp::new(day * 86_400 + hour * 3_600 + minute * 60, 0, 0).unwrap()
}

fn favorable_config() -> NotificationConfig {
    let mut c = NotificationConfig::default();
    c.enabled = true;
    c.reminder_start_hour = 8;
    c.reminder_end_hour = 22;
    c.max_reminders_per_day = 2;
    c
}

fn activity(last: Stamp, sent: u32, opened: Option<Stamp>) -> ActivityData {
    let mut a = ActivityData::new_at(last);
    a.notifications_sent_today = sent;
    a.last_notification_date = opened;
    a
}

#[test]
fn stamp_new_rejects_out_of_range_parts() {
    assert!(Stamp::new(0, 999_999_999, 0).is_some());
    assert!(Stamp::new(0, 1_000_000_000, 0).is_none());
    assert!(Stamp::new(0, 0, 86_400).is_none());
    assert!(Stamp::new(0, 0, -86_400).is_none());
    assert!(Stamp::new(0, 0, 86_399).is_some());
}

#[test]
fn stamp_local_hour_uses_offset_and_floors() {
    assert_eq!(Stamp::new(0, 0, 5 * 3_600).unwrap().local_hour_of_day(), 5);
    assert_eq!(Stamp::new(-1, 0, 0).unwrap().local_hour_of_day(), 23);
    assert_eq!(Stamp::new(14 * 3_600 + 59 * 60, 0, -3_600).unwrap().local_hour_of_day(), 13);
}

#[test]
fn stamp_same_local_date_across_midnight() {
    let before = Stamp::new(86_400 - 60, 0, 0).unwrap();
    let after = Stamp::new(86_400 + 60, 0, 0).unwrap();
    assert!(!before.same_local_date(&after));
    let before_east = Stamp::new(86_400 - 60, 0, 3_600).unwrap();
    let after_east = Stamp::new(86_400 + 60, 0, 3_600).unwrap();
    assert!(before_east.same_local_date(&after_east));
    assert!(Stamp::new(-60, 0, 0).unwrap().same_local_date(&Stamp::new(-86_400, 0, 0).unwrap()));
}

#[test]
fn stamp_hours_since_rounds_toward_zero() {
    assert_eq!(at(DAY, 14, 0).hours_since(&at(DAY, 1, 1)), 12);
    assert_eq!(at(DAY, 14, 0).hours_since(&at(DAY, 14, 30)), 0);
    assert_eq!(at(DAY, 14, 0).hours_since(&at(DAY, 15, 30)), -1);
    let later = Stamp::new(25 * 3_600, 0, 0).unwrap();
    let earlier = Stamp::new(0, 1, 0).unwrap();
    assert_eq!(later.hours_since(&earlier), 24);
    assert_eq!(later.hours_since(&Stamp::new(0, 0, 0).unwrap()), 25);
}

#[test]
fn config_defaults() {
    let c = NotificationConfig::default();
    assert!(c.enabled);
    assert!(c.streak_reminders);
    assert!(c.random_reminders);
    assert_eq!(c.reminder_start_hour, 8);
    assert_eq!(c.reminder_end_hour, 22);
    assert_eq!(c.max_reminders_per_day, 2);
    assert_eq!(c.streak_warning_threshold, 3);
    assert!(!c.sound_enabled);
    assert!(c.intelligent_timing);
    assert!(c.adaptive_frequency);
    assert_eq!(c.streak_protection_hours, vec![12, 18, 20]);
    assert!(c.has_valid_hours());
}

#[test]
fn config_hour_window_validation() {
    let mut c = NotificationConfig::default();
    c.reminder_start_hour = 23;
    c.reminder_end_hour = 23;
    assert!(c.has_valid_hours());
    c.reminder_end_hour = 24;
    assert!(!c.has_valid_hours());
    c.reminder_start_hour = 10;
    c.reminder_end_hour = 9;
    assert!(!c.has_valid_hours());
}

#[test]
fn scenario_stale_activity_in_active_hours_notifies() {
    let c = favorable_config();
    let now = at(DAY, 14, 0);
    let mut a = activity(at(DAY, 1, 0), 0, Some(at(DAY, 9, 0)));
    assert_eq!(evaluate_tick(&c, &mut a, now), TickDecision::Notify);
    assert_eq!(a.notifications_sent_today, 1);
}

#[test]
fn scenario_late_hour_skips() {
    let c = favorable_config();
    let now = at(DAY, 23, 0);
    let mut a = activity(at(DAY, 10, 0), 0, Some(at(DAY, 9, 0)));
    let d = evaluate_tick(&c, &mut a, now);
    assert_eq!(d, TickDecision::OutsideActiveHours);
    assert!(!d.should_notify());
    assert!(!d.needs_persisting());
    assert_eq!(a.notifications_sent_today, 0);
    assert_eq!(a.last_notification_date, Some(at(DAY, 9, 0)));
}

#[test]
fn scenario_quota_used_up_skips() {
    let c = favorable_config();
    let now = at(DAY, 14, 0);
    let mut a = activity(at(DAY - 2, 0, 0), 2, Some(at(DAY, 9, 0)));
    assert_eq!(evaluate_tick(&c, &mut a, now), TickDecision::QuotaReached);
    assert_eq!(a.notifications_sent_today, 2);
}

#[test]
fn scenario_yesterday_count_resets_then_increments() {
    let c = favorable_config();
    let now = at(DAY, 10, 0);
    let mut a = activity(at(DAY - 1, 8, 0), 2, Some(at(DAY - 1, 20, 0)));
    assert_eq!(evaluate_tick(&c, &mut a, now), TickDecision::Notify);
    assert_eq!(a.notifications_sent_today, 1);
    assert_eq!(a.last_notification_date, Some(now));
}

#[test]
fn new_day_resets_even_without_notifying() {
    let c = favorable_config();
    let now = at(DAY, 10, 0);
    let mut a = activity(at(DAY, 9, 0), 2, Some(at(DAY - 1, 20, 0)));
    let d = evaluate_tick(&c, &mut a, now);
    assert_eq!(d, TickDecision::RecentlyActive);
    assert!(d.needs_persisting());
    assert!(!d.should_notify());
    assert_eq!(a.notifications_sent_today, 0);
    assert_eq!(a.last_notification_date, Some(now));
}

#[test]
fn first_tick_ever_opens_the_day() {
    let c = favorable_config();
    let now = at(DAY, 12, 0);
    let mut a = activity(at(DAY, 11, 0), 0, None);
    assert_eq!(evaluate_tick(&c, &mut a, now), TickDecision::RecentlyActive);
    assert_eq!(a.last_notification_date, Some(now));
}

#[test]
fn same_day_tick_keeps_count() {
    let c = favorable_config();
    let opened = at(DAY, 8, 0);
    let mut a = activity(at(DAY - 1, 0, 0), 1, Some(opened));
    assert_eq!(evaluate_tick(&c, &mut a, at(DAY, 15, 0)), TickDecision::Notify);
    assert_eq!(a.notifications_sent_today, 2);
    assert_eq!(a.last_notification_date, Some(opened));
}

#[test]
fn disabled_config_never_notifies_or_touches_state() {
    let mut c = favorable_config();
    c.enabled = false;
    for hour in 0..24 {
        let mut a = activity(at(DAY - 3, 0, 0), 0, Some(at(DAY - 1, 9, 0)));
        assert_eq!(evaluate_tick(&c, &mut a, at(DAY, hour, 0)), TickDecision::Disabled);
        assert_eq!(a.notifications_sent_today, 0);
        assert_eq!(a.last_notification_date, Some(at(DAY - 1, 9, 0)));
    }
    let mut a = activity(at(DAY - 3, 0, 0), 0, None);
    assert_eq!(evaluate_tick_now(&c, &mut a), TickDecision::Disabled);
}

#[test]
fn hours_outside_window_never_notify() {
    let c = favorable_config();
    for hour in [0, 1, 5, 7, 23] {
        let mut a = activity(at(DAY - 3, 0, 0), 0, None);
        assert_eq!(
            evaluate_tick(&c, &mut a, at(DAY, hour, 30)),
            TickDecision::OutsideActiveHours
        );
        assert_eq!(a.last_notification_date, None);
    }
    for hour in [8, 22] {
        let mut a = activity(at(DAY - 3, 0, 0), 0, None);
        assert_eq!(evaluate_tick(&c, &mut a, at(DAY, hour, 30)), TickDecision::Notify);
    }
}

#[test]
fn quota_blocks_until_next_day() {
    let c = favorable_config();
    let mut a = activity(at(DAY - 3, 0, 0), 0, None);
    let mut sent = 0;
    for hour in 8..23 {
        if evaluate_tick(&c, &mut a, at(DAY, hour, 0)).should_notify() {
            sent += 1;
        }
    }
    assert_eq!(sent, 2);
    assert_eq!(a.notifications_sent_today, 2);
    assert_eq!(evaluate_tick(&c, &mut a, at(DAY + 1, 8, 0)), TickDecision::Notify);
    assert_eq!(a.notifications_sent_today, 1);
}

#[test]
fn inactivity_threshold_boundary() {
    let c = favorable_config();
    let mut a = activity(at(DAY, 2, 1), 0, None);
    assert_eq!(evaluate_tick(&c, &mut a, at(DAY, 14, 0)), TickDecision::RecentlyActive);
    let mut b = activity(at(DAY, 2, 0), 0, None);
    assert_eq!(evaluate_tick(&c, &mut b, at(DAY, 14, 0)), TickDecision::Notify);
}

#[test]
fn zero_quota_never_notifies() {
    let mut c = favorable_config();
    c.max_reminders_per_day = 0;
    let mut a = activity(at(DAY - 3, 0, 0), 0, None);
    assert_eq!(evaluate_tick(&c, &mut a, at(DAY, 12, 0)), TickDecision::QuotaReached);
}

#[test]
fn records_within_a_day_are_all_kept() {
    let mut a = ActivityData::new_at(at(DAY, 0, 0));
    let times = [at(DAY, 0, 0), at(DAY, 6, 0), at(DAY, 12, 0), at(DAY, 23, 59)];
    for t in times {
        a.record_activity_at(t);
    }
    assert_eq!(a.daily_sessions, times.to_vec());
    assert_eq!(a.last_activity, at(DAY, 23, 59));
}

#[test]
fn record_after_a_long_gap_prunes_old_sessions() {
    let mut a = ActivityData::new_at(at(DAY, 0, 0));
    a.record_activity_at(at(DAY, 0, 0));
    a.record_activity_at(at(DAY, 10, 0));
    a.record_activity_at(at(DAY + 1, 0, 0));
    assert_eq!(a.daily_sessions, vec![at(DAY, 0, 0), at(DAY, 10, 0), at(DAY + 1, 0, 0)]);
    let just_past = Stamp::new((DAY + 1) * 86_400, 1, 0).unwrap();
    a.record_activity_at(just_past);
    assert_eq!(a.daily_sessions, vec![at(DAY, 10, 0), at(DAY + 1, 0, 0), just_past]);
    a.record_activity_at(at(DAY + 1, 10, 30));
    assert_eq!(a.daily_sessions, vec![at(DAY + 1, 0, 0), just_past, at(DAY + 1, 10, 30)]);
    a.record_activity_at(at(DAY + 3, 0, 0));
    assert_eq!(a.daily_sessions, vec![at(DAY + 3, 0, 0)]);
}

#[test]
fn session_a_day_and_a_half_hour_old_is_pruned() {
    let mut a = ActivityData::new_at(at(DAY, 0, 0));
    a.record_activity_at(at(DAY, 12, 0));
    a.record_activity_at(at(DAY + 1, 12, 30));
    assert_eq!(a.daily_sessions, vec![at(DAY + 1, 12, 30)]);
}

#[test]
fn stamp_elapsed_nanos_is_signed() {
    let later = Stamp::new(10, 5, 0).unwrap();
    let earlier = Stamp::new(8, 7, 3_600).unwrap();
    assert_eq!(later.elapsed_nanos(&earlier), 1_999_999_998);
    assert_eq!(earlier.elapsed_nanos(&later), -1_999_999_998);
}

#[test]
fn record_activity_takes_the_current_time() {
    let mut a = ActivityData::new_at(at(0, 0, 0));
    a.record_activity();
    assert!(a.last_activity.secs > 1_600_000_000);
    assert_eq!(a.daily_sessions, vec![a.last_activity]);
    let fresh = ActivityData::default();
    assert!(fresh.last_activity.secs > 1_600_000_000);
    assert!(fresh.daily_sessions.is_empty());
}

#[test]
fn habit_completion_inserts_and_overwrites() {
    let mut a = ActivityData::new_at(at(DAY, 0, 0));
    a.record_habit_completion_at("read".to_string(), at(DAY, 1, 0));
    a.record_habit_completion_at("run".to_string(), at(DAY, 2, 0));
    a.record_habit_completion_at("read".to_string(), at(DAY, 3, 0));
    assert_eq!(a.habit_completions.len(), 2);
    assert_eq!(a.habit_completions[0].habit_id, "read");
    assert_eq!(a.habit_completions[0].completed_at, at(DAY, 3, 0));
    assert_eq!(a.habit_completions[1].habit_id, "run");
    assert_eq!(a.habit_completions[1].completed_at, at(DAY, 2, 0));
    a.record_habit_completion("walk".to_string());
    assert_eq!(a.habit_completions.len(), 3);
    assert!(a.habit_completions[2].completed_at.secs > 1_600_000_000);
    assert!(a.is_well_formed());
}

#[test]
fn well_formedness_rejects_duplicates_and_bad_stamps() {
    let mut a = ActivityData::new_at(at(DAY, 0, 0));
    assert!(a.is_well_formed());
    a.habit_completions.push(HabitCompletion { habit_id: "x".to_string(), completed_at: at(DAY, 1, 0) });
    a.habit_completions.push(HabitCompletion { habit_id: "y".to_string(), completed_at: at(DAY, 1, 0) });
    assert!(a.is_well_formed());
    a.habit_completions.push(HabitCompletion { habit_id: "x".to_string(), completed_at: at(DAY, 2, 0) });
    assert!(!a.is_well_formed());
    let mut b = ActivityData::new_at(at(DAY, 0, 0));
    b.daily_sessions.push(Stamp { secs: 0, nanos: 2_000_000_000, offset: 0 });
    assert!(!b.is_well_formed());
    let mut c = ActivityData::new_at(at(DAY, 0, 0));
    c.last_notification_date = Some(Stamp { secs: 0, nanos: 0, offset: 90_000 });
    assert!(!c.is_well_formed());
}

#[test]
fn stamp_local_minute() {
    assert_eq!(at(DAY, 18, 4).local_minute_of_hour(), 4);
    assert_eq!(Stamp::new(-60, 0, 0).unwrap().local_minute_of_hour(), 59);
    assert_eq!(Stamp::new(0, 0, 1_800).unwrap().local_minute_of_hour(), 30);
}

#[test]
fn streak_protection_fires_only_early_at_six_pm() {
    assert!(should_send_streak_protection_reminder(&at(DAY, 18, 0)));
    assert!(should_send_streak_protection_reminder(&at(DAY, 18, 4)));
    assert!(!should_send_streak_protection_reminder(&at(DAY, 18, 5)));
    assert!(!should_send_streak_protection_reminder(&at(DAY, 17, 59)));
    assert!(!should_send_streak_protection_reminder(&at(DAY, 6, 0)));
    assert!(!should_send_streak_protection_reminder(&at(DAY, 23, 0)));
    let east = Stamp::new(DAY * 86_400 + 16 * 3_600 + 120, 0, 2 * 3_600).unwrap();
    assert!(should_send_streak_protection_reminder(&east));
    let _ = should_send_streak_protection_reminder_now();
}
