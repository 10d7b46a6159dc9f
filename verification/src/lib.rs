//! The verified core of a registry of events, groups and group members.
//!
//! Events own groups and groups own members. The registry keeps this
//! hierarchy sound over a store of three tables: a group is only created
//! under an event that exists, a member is only added to a group that
//! accepts others and has room under its event's limit, and whatever is
//! removed takes with it all that it owns.
//!
//! The crate is laid out in layers.
//!
//! * [`model`], [`error`], [`paging`], [`config`], [`ids`] and [`text`] hold
//!   the data: entities, requests, failures, pages, settings, identifiers
//!   and the wording of messages.
//! * [`protocol`] names what passes between an operation and a store, and
//!   [`plan`] lays down, for every operation, which statement follows which
//!   reply. [`workflow`] carries those plans out as resumable state
//!   machines that never touch a store themselves, so that any driver can
//!   run them against any store.
//! * [`store`] says what a store holds and what each statement does to it,
//!   [`memory`] is a store that does exactly that in memory, and
//!   [`engine`] runs a workflow against it from its first statement to its
//!   outcome. [`registry`] wraps the three into one value.
//! * [`rules`] states what every operation amounts to, [`soundness`]
//!   proves that the engine arrives at just that, also when the store
//!   fails in the middle, and [`laws`] draws the consequences.
//! * [`assemble`], [`invariants`] and [`seqs`] hold the joining of rows
//!   into nested answers and the facts the proofs rest on.

pub mod assemble;
pub mod config;
pub mod engine;
pub mod error;
pub mod ids;
pub mod invariants;
pub mod laws;
pub mod memory;
pub mod model;
pub mod paging;
pub mod plan;
pub mod protocol;
pub mod registry;
pub mod rules;
pub mod seqs;
pub mod soundness;
pub mod store;
pub mod text;
pub mod workflow;
