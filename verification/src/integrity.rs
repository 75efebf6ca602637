//! The post-failure integrity check: reconciling the ledger's own
//! reported height with the height a partial sync run completed.

use vstd::prelude::*;

use crate::error::CdnError;

verus! {

/// What to do after a failed sync run.
#[derive(Clone, Copy, Debug, PartialEq, Eq, Structural)]
pub enum IntegrityDecision {
    /// The run made zero progress: skip the check and surface the
    /// original error unchanged.
    SurfaceOriginalError,
    /// The run made progress: read the ledger's reported maximum height
    /// and judge it against the completed height.
    CheckLedger { completed_height: u32 },
}

/// Decides whether a failed run warrants the integrity check.
pub fn plan_integrity_check(start_height: u32, completed_height: u32) -> (d: IntegrityDecision)
    ensures
        d == if completed_height == start_height {
            IntegrityDecision::SurfaceOriginalError
        } else {
            IntegrityDecision::CheckLedger { completed_height }
        },
{
    if completed_height == start_height {
        IntegrityDecision::SurfaceOriginalError
    } else {
        IntegrityDecision::CheckLedger { completed_height }
    }
}

/// Judges the ledger's reported maximum height against the completed
/// height of a partial run.
///
/// Disagreement is state corruption and is never silently reconciled: it
/// surfaces as [`CdnError::LedgerHeightMismatch`]. Agreement asks the
/// caller to read the record at that height from the ledger, propagating
/// any read error as fatal.
pub fn judge_ledger_height(completed_height: u32, ledger_height: u32) -> (r: Result<u32, CdnError>)
    ensures
        ledger_height == completed_height <==> r == Ok::<u32, CdnError>(ledger_height),
        ledger_height != completed_height <==> r == Err::<u32, CdnError>(
            CdnError::LedgerHeightMismatch { ledger_height, completed_height },
        ),
{
    if ledger_height == completed_height {
        Ok(ledger_height)
    } else {
        Err(CdnError::LedgerHeightMismatch { ledger_height, completed_height })
    }
}

} // verus!
