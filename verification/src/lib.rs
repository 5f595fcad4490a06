//! Cache-integrity escalation for package caches.
//!
//! A package identifier is probed for an integrity score, the score is
//! classified into a severity level, and the level prescribes a remediation:
//! nothing, invalidating the cached artifact, or invalidating it and asking
//! for a restart of the process.
//!
//! Everything here is pure: touching the cache storage and ending the process
//! are left to the caller, which is driven by the controller's commands.

pub mod cache;
pub mod controller;
pub mod package;
pub mod probe;
pub mod remediation;
pub mod report;
pub mod severity;
