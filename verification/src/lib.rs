//! Keeps a local table of exchange rates fresh against an upstream provider,
//! and holds the other decisions of the service around that table.
//!
//! A refresh cycle looks at every tracked code, asks the provider once if
//! any code is stale, and writes the answer back. The decisions of the
//! cycle are here: which rows are stale ([`staleness`]), what a cycle does
//! to the table ([`coordinator`]), when the provider is asked and when the
//! cycle sleeps ([`scheduler`]), what an answer of the provider amounts to
//! ([`upstream`]), and what holds of every cycle ([`guarantees`]). Reading
//! and writing the database, the call over the network and the sleeping
//! stay with the caller.
//!
//! Around the cycle: the rows ([`model`]), an in-memory table of them
//! ([`store`]), the tracked codes ([`universe`], [`standard_codes`]), the
//! settings of the service ([`settings`]), who may have an answer
//! ([`access`]), and what the tables start out with ([`populate`],
//! [`emails`]).

pub mod access;
pub mod coordinator;
pub mod day;
pub mod emails;
pub mod guarantees;
pub mod json;
pub mod model;
pub mod populate;
pub mod scheduler;
pub mod settings;
pub mod staleness;
pub mod standard_codes;
pub mod store;
pub mod text;
pub mod universe;
pub mod upstream;
