//! Background habit-reminder scheduling: the policy record, the tracked
//! activity, and the per-tick decision of whether a reminder is due.

pub mod stamp;
pub mod config;
pub mod activity;
pub mod scheduler;
