//! A reminder store and its notification schedule.
//!
//! A reminder names a calendar date, a time of day and a lead time in hours.
//! The store keeps reminders in insertion order; the schedule decides, for a
//! given moment, which of them are due, and records each delivery so that no
//! reminder is announced twice.

pub mod calendar;
pub mod chrono_bridge;
pub mod laws;
pub mod reminder;
pub mod store;
pub mod theme;

pub use calendar::{CalendarDate, ClockTime, Moment};
pub use reminder::{Notice, Reminder, StoredRecord};
pub use store::{ReminderList, SaveRequest, StoreError};
pub use theme::Theme;
