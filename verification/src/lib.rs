//! Core of a media-library synchronizer for a video platform.
//!
//! The crate models the synchronization pipeline: a status bitfield that
//! records per-subtask progress, a refresh planner that drains a paginated
//! upstream listing and advances a high-water mark, a bangumi episode
//! selector, a path and filename planner, and the decision logic of the
//! two-level download scheduler.  Network, database and filesystem work is
//! done by callers; every decision the pipeline takes is verified here.
use vstd::prelude::*;

pub mod bangumi;
pub mod detail;
pub mod format_args;
pub mod me;
pub mod model;
pub mod path_plan;
pub mod refresh;
pub mod scheduler;
pub mod season_cache;
pub mod status;
pub mod strutil;
pub mod table;
pub mod textnorm;
pub mod timefmt;

verus! {

} // verus!
