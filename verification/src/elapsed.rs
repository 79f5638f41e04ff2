//! Epoch-safe computation of how long a tracked process has been observed
//! running.
//!
//! The monitored process may pre-date the current monitoring session, or the
//! session's reference point may have been re-based (for example after a
//! sleep/resume of the monitoring process). The computation must therefore be
//! defined for every ordering of the two timestamps and never wrap.

use vstd::prelude::*;

verus! {

/// The total observed running time, as a function of the process's own start
/// timestamp, the monitoring session's reference timestamp, and the running
/// time accumulated in earlier sessions.
///
/// When the process began before the session (`monitoring_epoch_start`
/// is the later timestamp), the time between the two timestamps is added to
/// the carried-over total, saturating at the largest representable value.
/// Otherwise the carried-over total is shifted by the (non-positive)
/// difference; if that would fall below zero, the magnitude of the shortfall
/// is reported instead: the intent is "time between the two reference
/// points", where the sign only encodes which one is later.
pub open spec fn running_since(
    process_start_time: u64,
    monitoring_epoch_start: u64,
    accumulated_running_since: u64,
) -> int {
    if monitoring_epoch_start > process_start_time {
        let total = monitoring_epoch_start - process_start_time
            + accumulated_running_since;
        if total > u64::MAX {
            u64::MAX as int
        } else {
            total
        }
    } else {
        let total = monitoring_epoch_start + accumulated_running_since
            - process_start_time;
        if total < 0 {
            -total
        } else {
            total
        }
    }
}

/// Total elapsed seconds the process has been observed running.
///
/// Defined for every relative ordering of the two timestamps: the
/// subtractions are carried out on a wider signed type, so no unsigned
/// wrap-around can occur, and the one sum that could exceed the output range
/// saturates.
pub fn compute_running_since(
    process_start_time: u64,
    monitoring_epoch_start: u64,
    accumulated_running_since: u64,
) -> (total: u64)
    ensures
        total == running_since(
            process_start_time,
            monitoring_epoch_start,
            accumulated_running_since,
        ),
{
    if monitoring_epoch_start > process_start_time {
        let gap: u128 = (monitoring_epoch_start - process_start_time) as u128
            + accumulated_running_since as u128;
        if gap > u64::MAX as u128 {
            u64::MAX
        } else {
            gap as u64
        }
    } else {
        let shifted: i128 = monitoring_epoch_start as i128
            + accumulated_running_since as i128 - process_start_time as i128;
        if shifted < 0 {
            (-shifted) as u64
        } else {
            shifted as u64
        }
    }
}

} // verus!
