//! The error kinds that a sync run can surface.

use vstd::prelude::*;

verus! {

/// What went wrong during a sync run.
///
/// Transient chunk-download failures are never represented here: they are
/// retried indefinitely inside the fetch loop and do not surface. An apply
/// failure surfaces as the external apply function's own error, paired with
/// the last successfully applied height.
#[derive(Clone, Copy, Debug, PartialEq, Eq, Structural)]
pub enum CdnError {
    /// The network identifier does not match the supported one.
    UnsupportedNetwork { network_id: u16 },
    /// The remote metadata request could not be completed.
    RemoteUnreachable,
    /// The remote metadata envelope or its JSON payload could not be decoded,
    /// or the decoded height admits no representable chunk-aligned end.
    DecodeError,
    /// After a partial run, the ledger reports a height other than the last
    /// height this sync completed.
    LedgerHeightMismatch { ledger_height: u32, completed_height: u32 },
    /// The sync was stopped by the cooperative shutdown signal.
    Cancelled,
}

} // verus!
