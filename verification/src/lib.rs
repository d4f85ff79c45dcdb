//! The synchronization engine of a shell plugin manager.
//!
//! The engine decides everything a sync run does — whether the configuration
//! changed since the last run, what identity each configured source resolves
//! to, which plugins to install and which to skip, when the new fingerprint
//! is committed and when running shells are told to reload — and in what
//! order load commands are emitted. The surrounding program supplies what
//! only it can: environment values, file contents, directory probes, the
//! clone itself, and signal delivery.

pub mod config;
pub mod fingerprint;
pub mod identity;
pub mod paths;
pub mod segments;
pub mod shell;
pub mod sourcing;
pub mod sync;
