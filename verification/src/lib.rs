//! Verified core of a two-phase process-specialization payload loader.
//!
//! The library decides, for each freshly forked application process, whether
//! the process matches an operator-configured target identifier and, if so,
//! sequences the staging, loading and cleanup of an externally supplied
//! payload image. All decision logic lives here and is verified; the
//! surrounding host ABI, the managed-runtime string accessors and the actual
//! filesystem and loader calls are performed by an unverified shell that
//! feeds their outcomes back into the verified state machine as events.

pub mod bytes;
pub mod config;
pub mod engine;
pub mod identity;
pub mod matching;
pub mod state;
