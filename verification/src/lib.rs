//! Core of a latency-measurement harness for a two-workload benchmark
//! against a remote ledger execution platform: a single state-mutating
//! call repeated against a fixed target, and a multi-step
//! identity-registration-and-delegation workflow.  The modules here hold
//! the decision logic — identity provisioning, the registration state
//! machine, the two-phase delegation exchange, and the retry/logging
//! driver — as verified functions from plain values to plain values; the
//! surrounding binary performs the network and file I/O they direct.

pub mod codec;
pub mod config;
pub mod delegation;
pub mod driver;
pub mod identity;
pub mod registration;
