//! Bulk synchronization of an append-only ledger from a remote store of
//! fixed-size record bundles: range planning, a height-ordered reorder
//! buffer, a backpressure-aware download controller, a strictly sequential
//! applier, progress estimation, and a post-failure integrity check.

use vstd::prelude::*;

pub mod buffer;
pub mod error;
pub mod integrity;
pub mod pipeline;
pub mod planner;
pub mod progress;

verus! {

/// The number of records bundled into one remote file.
pub const BLOCKS_PER_FILE: u32 = 50;

/// The desired number of concurrent requests to the remote store.
pub const CONCURRENT_REQUESTS: u32 = 16;

/// Maximum number of downloaded records awaiting application.
pub const MAXIMUM_PENDING_BLOCKS: u32 = BLOCKS_PER_FILE * CONCURRENT_REQUESTS * 2;

/// The supported network identifier.
pub const NETWORK_ID: u16 = 3;

/// How many heights below the remote tip are considered safe to read.
pub const SAFETY_MARGIN: u32 = 10;

} // verus!

