//! Describes five-field cron schedules in plain English.
pub mod clause;
pub mod field;
pub mod laws;
pub mod schedule;
pub mod text;

pub use field::{CronSymbol, ExpValue};
pub use schedule::{parse_cron_exp, CronExp};
