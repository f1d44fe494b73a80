//! Orchestration core of a rollup advance-runner: a verified state machine
//! that consumes a parent-linked stream of input events, dispatches each one
//! to a compute session, and finalizes epochs by persisting snapshots and
//! idempotently producing claims.
//!
//! All calls to the collaborators (event log, compute session, snapshot
//! store) are I/O and live in the driver around this library. The library
//! decides, for every observed outcome, which call comes next; the driver
//! performs it and feeds the result back in.

pub mod data;
pub mod error;
pub mod metrics;
pub mod runner;
