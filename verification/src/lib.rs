//! Verified core of a concurrent credential-testing engine.
//!
//! Given a target address, a username list and a password list, the engine
//! walks the cross product of credential pairs in a fixed order, paced by a
//! token-bucket rate limiter and bounded by a concurrency limit, classifies
//! each probe's outcome, and feeds a shared statistics collector that a
//! periodic progress reporter reads. The network probe itself is an abstract
//! capability supplied by the caller.

pub mod config;
pub mod engine;
pub mod limiter;
pub mod outcome;
pub mod stats;
