//! The reminder policy.

use vstd::prelude::*;

verus! {

/// Scheduling policy for background reminders.
///
/// `streak_reminders`, `random_reminders`, `streak_warning_threshold`,
/// `intelligent_timing`, `adaptive_frequency` and `streak_protection_hours`
/// are stored and persisted but not consulted by the tick decision.
#[derive(Clone, Debug)]
pub struct NotificationConfig {
    /// Master switch: no tick does anything while it is off.
    pub enabled: bool,
    pub streak_reminders: bool,
    pub random_reminders: bool,
    /// First local hour (inclusive) in which reminders may fire.
    pub reminder_start_hour: u32,
    /// Last local hour (inclusive) in which reminders may fire.
    pub reminder_end_hour: u32,
    /// Cap on reminders within one local calendar day.
    pub max_reminders_per_day: u32,
    pub streak_warning_threshold: u32,
    /// Handed to the notifier; not interpreted here.
    pub sound_enabled: bool,
    pub intelligent_timing: bool,
    pub adaptive_frequency: bool,
    pub streak_protection_hours: Vec<u32>,
}

impl NotificationConfig {
    /// The active-hours window is a well-ordered range of hours of the day.
    pub open spec fn hours_valid(&self) -> bool {
        self.reminder_start_hour <= self.reminder_end_hour <= 23
    }

    /// Whether the active-hours window is well ordered and within the day.
    pub fn has_valid_hours(&self) -> (r: bool)
        ensures
            r == self.hours_valid(),
    {
        self.reminder_start_hour <= self.reminder_end_hour && self.reminder_end_hour <= 23
    }
}

impl Default for NotificationConfig {
    fn default() -> (r: Self)
        ensures
            r.enabled,
            r.streak_reminders,
            r.random_reminders,
            r.reminder_start_hour == 8,
            r.reminder_end_hour == 22,
            r.max_reminders_per_day == 2,
            r.streak_warning_threshold == 3,
            !r.sound_enabled,
            r.intelligent_timing,
            r.adaptive_frequency,
            r.streak_protection_hours@ == seq![12u32, 18u32, 20u32],
    {
        NotificationConfig {
            enabled: true,
            streak_reminders: true,
            random_reminders: true,
            reminder_start_hour: 8,
            reminder_end_hour: 22,
            max_reminders_per_day: 2,
            streak_warning_threshold: 3,
            sound_enabled: false,
            intelligent_timing: true,
            adaptive_frequency: true,
            streak_protection_hours: vec![12, 18, 20],
        }
    }
}

} // verus!
