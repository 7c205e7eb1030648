//! Database-arbitrated leader election.
//!
//! A fleet of identical nodes elects a single leader through a claim row held
//! in a shared relational store: at most one row, naming the current leader
//! and the timestamp at which its term began. Each node runs a periodic
//! election cycle that reads the row, claims leadership when the row is absent
//! or stale, and derives a per-cycle leadership verdict. Role changes are
//! announced to the surrounding orchestration by external hook commands.
//!
//! This crate holds the election rules themselves: the per-cycle decision,
//! a model of what each decision does to the claim row, the verdict rule,
//! the shared leadership cell, and the hook-dispatch rule. Database traffic,
//! process spawning and configuration parsing are left to the embedding
//! program, which feeds plain values in and carries the decided actions out.

pub mod config;
pub mod dispatch;
pub mod election;
pub mod state;
