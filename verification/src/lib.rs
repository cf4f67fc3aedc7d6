//! Study goals, a weekly timetable of study sessions, and the decisions of the
//! reminder watcher that runs over them.
//!
//! The store ([`config`]) holds the subjects and their weekly slots. The
//! matcher ([`matcher`]) says which reminders are due at a minute of the week,
//! and the scheduler ([`scheduler`]) what its watcher is to do at each tick.
//! The tracker ([`schedule`]) follows the one study session that may be in
//! progress. Reading and writing files, showing notifications and sleeping
//! between ticks are left to the program that uses the library.

pub mod hours;
pub mod text;
pub mod clock;
pub mod table;
pub mod config;
pub mod matcher;
pub mod schedule;
pub mod notification;
pub mod scheduler;
