//! Wall-clock tracking of a named operation with labelled
//! checkpoints.  The readings are opaque measurements; displaying
//! them belongs to the presentation layer.

use std::time::Instant;
use vstd::prelude::*;

use crate::clock::{clock_now, elapsed_nanos};

verus! {

/// Tracks how long a named operation takes, with labelled
/// checkpoints along the way.
pub struct PerformanceTracker {
    /// The name of the tracked operation.
    pub operation_name: String,
    /// The clock reading taken when tracking began.
    pub start_time: Instant,
    /// Memory in use when tracking began; always zero here, since no
    /// allocator statistics are read.
    pub memory_before: usize,
    /// Labelled checkpoints, each with its elapsed time in nanoseconds.
    pub checkpoints: Vec<(String, u128)>,
}

impl PerformanceTracker {
    /// Begins tracking an operation under the given name, with no
    /// checkpoints recorded yet.
    pub fn new(operation_name: &str) -> (r: Self)
        ensures
            r.operation_name@ == operation_name@,
            r.memory_before == 0,
            r.checkpoints@.len() == 0,
    {
        Self {
            operation_name: operation_name.to_owned(),
            start_time: clock_now(),
            memory_before: 0,
            checkpoints: Vec::new(),
        }
    }

    /// Records one checkpoint: the given label together with the
    /// elapsed time so far.  Earlier checkpoints are kept unchanged.
    pub fn checkpoint(&mut self, label: &str)
        ensures
            final(self).operation_name == old(self).operation_name,
            final(self).start_time == old(self).start_time,
            final(self).memory_before == old(self).memory_before,
            final(self).checkpoints@.len() == old(self).checkpoints@.len() + 1,
            final(self).checkpoints@.drop_last() == old(self).checkpoints@,
            final(self).checkpoints@.last().0@ == label@,
    {
        let elapsed = elapsed_nanos(&self.start_time);
        self.checkpoints.push((label.to_owned(), elapsed));
        proof {
            assert(self.checkpoints@.drop_last() =~= old(self).checkpoints@);
        }
    }

    /// Ends tracking and returns the total elapsed time in
    /// nanoseconds.  The reading depends on the clock, so nothing is
    /// promised about its value.
    pub fn finish(&self) -> u128 {
        elapsed_nanos(&self.start_time)
    }
}

} // verus!
