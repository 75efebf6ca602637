//! Progress estimation for a running sync.

use vstd::prelude::*;

verus! {

/// A progress estimate derived from elapsed time and file-count velocity.
///
/// Non-authoritative, recomputed on each log tick, never persisted.
#[derive(Clone, Copy, Debug, PartialEq, Eq, Structural)]
pub struct Progress {
    /// Percentage of the inclusive target height already applied.
    pub percentage: u64,
    /// Number of bundle files processed so far (at least one).
    pub files_done: u64,
    /// Number of bundle files still to process (at least one).
    pub files_remaining: u64,
    /// Average milliseconds spent per processed file.
    pub millis_per_file: u128,
    /// Estimated milliseconds remaining, with a fixed slowdown margin of
    /// one hundred milliseconds per remaining file.
    pub time_remaining_millis: u128,
    /// The estimate above, in whole minutes.
    pub minutes_remaining: u128,
}

/// Computes the progress estimate for one log tick.
///
/// `cdn_start` and `cdn_end` delimit the half-open planned range; the
/// divisor guards below (`files_done >= 1`, an inclusive end of at least
/// one) keep every division well defined.
pub fn log_progress(
    elapsed_millis: u64,
    current_index: u32,
    cdn_start: u32,
    cdn_end: u32,
    objects_per_file: u32,
) -> (p: Progress)
    requires
        objects_per_file > 0,
        cdn_end >= 2,
        cdn_start <= current_index,
    ensures
        p.percentage == current_index * 100 / (cdn_end - 1),
        p.files_done == 1 + (current_index - cdn_start) / (objects_per_file as int),
        p.files_remaining == 1 + (if current_index <= cdn_end - 1 {
            (cdn_end - 1 - current_index) as int
        } else {
            0int
        }) / (objects_per_file as int),
        p.millis_per_file == elapsed_millis / p.files_done,
        p.time_remaining_millis == p.files_remaining * p.millis_per_file + 100
            * p.files_remaining,
        p.minutes_remaining == p.time_remaining_millis / 60000,
{
    // Subtract one: the end of the planned range is exclusive.
    let end_inclusive: u32 = cdn_end - 1;
    let percentage: u64 = current_index as u64 * 100 / end_inclusive as u64;
    let files_done: u64 = 1 + (current_index - cdn_start) as u64 / objects_per_file as u64;
    let left: u32 = if current_index <= end_inclusive {
        end_inclusive - current_index
    } else {
        0
    };
    let files_remaining: u64 = 1 + left as u64 / objects_per_file as u64;
    let millis_per_file: u128 = elapsed_millis as u128 / files_done as u128;
    assert(files_remaining * millis_per_file <= 0x2_0000_0000u128 * u64::MAX as u128)
        by (nonlinear_arith)
        requires
            files_remaining <= 0x2_0000_0000u64,
            millis_per_file <= u64::MAX,
    ;
    let time_remaining_millis: u128 = files_remaining as u128 * millis_per_file + 100
        * files_remaining as u128;
    let minutes_remaining: u128 = time_remaining_millis / 60000;
    Progress {
        percentage,
        files_done,
        files_remaining,
        millis_per_file,
        time_remaining_millis,
        minutes_remaining,
    }
}

} // verus!
