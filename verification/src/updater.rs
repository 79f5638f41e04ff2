//! The per-tick orchestration: given a fresh process snapshot, rotate the
//! newest sample into each tracked history, mark them dirty, and return the
//! freshly computed observed running time.

use vstd::prelude::*;

use crate::elapsed::{compute_running_since, running_since};
use crate::metric::MetricHistory;
use crate::ring::rotated;

verus! {

/// A read-only view of the monitored process's current state, supplied once
/// per tick by an external sampler. The two sample fields are opaque 64-bit
/// payloads (at the boundary, the IEEE-754 double bit patterns of the memory
/// magnitude and the CPU percentage); the engine stores them uninterpreted.
#[derive(Clone, Copy, Debug, PartialEq, Eq, Structural)]
pub struct Snapshot {
    pub memory_sample: u64,
    pub cpu_sample: u64,
    pub process_start_time: u64,
}

/// One tick: rotates the snapshot's memory sample into the memory history's
/// first series and its CPU sample into the CPU history's first series,
/// marking both histories dirty, and returns the observed running time
/// computed from the snapshot's process start time. Nothing else changes.
///
/// Both histories must already have their series attached: recording into a
/// history without one is a caller error.
pub fn update(
    memory_history: &mut MetricHistory,
    cpu_history: &mut MetricHistory,
    snapshot: &Snapshot,
    monitoring_epoch_start: u64,
    accumulated_running_since: u64,
) -> (elapsed: u64)
    requires
        old(memory_history).wf(),
        old(cpu_history).wf(),
        old(memory_history).series().len() >= 1,
        old(cpu_history).series().len() >= 1,
    ensures
        elapsed == running_since(
            snapshot.process_start_time,
            monitoring_epoch_start,
            accumulated_running_since,
        ),
        final(memory_history).series() == old(memory_history).series().update(
            0,
            rotated(old(memory_history).series()[0], snapshot.memory_sample),
        ),
        final(cpu_history).series() == old(cpu_history).series().update(
            0,
            rotated(old(cpu_history).series()[0], snapshot.cpu_sample),
        ),
        final(memory_history).dirty(),
        final(cpu_history).dirty(),
        final(memory_history).names() == old(memory_history).names(),
        final(memory_history).ceiling() == old(memory_history).ceiling(),
        final(memory_history).show_labels() == old(memory_history).show_labels(),
        final(memory_history).labeler() == old(memory_history).labeler(),
        final(memory_history).wf(),
        final(cpu_history).names() == old(cpu_history).names(),
        final(cpu_history).ceiling() == old(cpu_history).ceiling(),
        final(cpu_history).show_labels() == old(cpu_history).show_labels(),
        final(cpu_history).labeler() == old(cpu_history).labeler(),
        final(cpu_history).wf(),
{
    let elapsed = compute_running_since(
        snapshot.process_start_time,
        monitoring_epoch_start,
        accumulated_running_since,
    );
    let memory_recorded = memory_history.record(0, snapshot.memory_sample);
    assert(memory_recorded is Ok);
    let cpu_recorded = cpu_history.record(0, snapshot.cpu_sample);
    assert(cpu_recorded is Ok);
    elapsed
}

} // verus!
