//! Core of a background disk-cleanup engine.
//!
//! The engine enumerates platform-specific cache, temporary, and log
//! locations, classifies each filesystem entry as safe-to-delete or not
//! using per-directory context rules, and reports progress as a stream of
//! discrete events.  This crate holds the decision logic — path discovery,
//! the classification rule set, the aged-log filter, count aggregation, and
//! the progress/event protocol — all verified.  Filesystem access, OS
//! capability calls, and presentation live with the embedding application.

pub mod catalog;
pub mod classify;
pub mod cleaner;
pub mod events;
pub mod logsweep;
pub mod tally;
pub mod text;
