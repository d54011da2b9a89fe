//! Named counters ("trackers") and the intervals ("events") that change them.
//!
//! The store keeps a trackers table and an events table with their
//! constraints; the collator turns the rows of the outer join of one tracker
//! with its events into an explicit three-way answer.

pub mod collator;
pub mod domain_types;
pub mod store;
pub mod lemmas;
