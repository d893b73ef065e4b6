//! Launch coordination and progress reporting for a desktop archive utility.
//!
//! The modules hold the decisions that the windowed shell around them makes:
//! which compression kinds exist, how launches are merged into one session,
//! when the session is ready, how batch progress is weighted, and where
//! archives are extracted to.
pub mod kind;
pub mod counters;
pub mod readiness;
pub mod paths;
pub mod outdir;
pub mod error;
pub mod launch;
pub mod jobs;
