//! Batches of timeline points.
//!
//! The signal and wait requests take their objects as two arrays in the
//! caller's memory, one of handles and one of points, and a count. A batch
//! keeps the pairs together, so the two arrays and the count cannot
//! disagree; the records are made from a batch and the two addresses.

use vstd::prelude::*;
use crate::bindings::{DrmSyncobjTimelineSignal, DrmSyncobjTimelineWait, RawDrmSyncobjHandle};
use crate::flags::{SyncobjTimelineSignalFlags, SyncobjWaitFlags};

verus! {

/// A point on the timeline of one sync object.
#[derive(Clone, Copy, Debug, PartialEq, Eq)]
pub struct TimelinePoint {
    pub handle: RawDrmSyncobjHandle,
    pub point: u64,
}

/// The handles of a sequence of timeline points, in order.
pub open spec fn handle_column(entries: Seq<TimelinePoint>) -> Seq<u32> {
    Seq::new(entries.len(), |i: int| entries[i].handle.0)
}

/// The points of a sequence of timeline points, in order.
pub open spec fn point_column(entries: Seq<TimelinePoint>) -> Seq<u64> {
    Seq::new(entries.len(), |i: int| entries[i].point)
}

/// An ordered batch of timeline points for one request. It never holds more
/// entries than the 32-bit count of a record can say.
#[derive(Debug)]
pub struct TimelineBatch {
    entries: Vec<TimelinePoint>,
}

impl View for TimelineBatch {
    type V = Seq<TimelinePoint>;

    closed spec fn view(&self) -> Seq<TimelinePoint> {
        self.entries@
    }
}

impl TimelineBatch {
    #[verifier::type_invariant]
    spec fn fits_count(&self) -> bool {
        self.entries@.len() <= u32::MAX
    }

    /// The batch without entries.
    pub fn new() -> (batch: TimelineBatch)
        ensures
            batch@ == Seq::<TimelinePoint>::empty(),
    {
        TimelineBatch { entries: Vec::new() }
    }

    /// The batch of the one entry `(handle, point)`.
    pub fn single(handle: RawDrmSyncobjHandle, point: u64) -> (batch: TimelineBatch)
        ensures
            batch@ == seq![(TimelinePoint { handle, point })],
    {
        let mut entries: Vec<TimelinePoint> = Vec::new();
        entries.push(TimelinePoint { handle, point });
        TimelineBatch { entries }
    }

    /// Appends `(handle, point)` unless the batch is full. Says whether it
    /// did; a full batch stays as it was.
    pub fn push(&mut self, handle: RawDrmSyncobjHandle, point: u64) -> (pushed: bool)
        ensures
            pushed == (old(self)@.len() < u32::MAX),
            pushed ==> final(self)@ == old(self)@.push(TimelinePoint { handle, point }),
            !pushed ==> final(self)@ == old(self)@,
    {
        if self.entries.len() >= u32::MAX as usize {
            return false;
        }
        let mut taken = TimelineBatch::new();
        core::mem::swap(self, &mut taken);
        let mut entries = taken.entries;
        entries.push(TimelinePoint { handle, point });
        *self = TimelineBatch { entries };
        true
    }

    /// The number of entries, as the count field of a record takes it.
    pub fn count(&self) -> (count: u32)
        ensures
            count == self@.len(),
    {
        proof {
            use_type_invariant(self);
        }
        self.entries.len() as u32
    }

    /// The array of handles that the request's `handles` address must point
    /// to for the length of the call.
    pub fn handles(&self) -> (column: Vec<u32>)
        ensures
            column@ == handle_column(self@),
    {
        let mut column: Vec<u32> = Vec::new();
        let mut i: usize = 0;
        while i < self.entries.len()
            invariant
                i <= self.entries@.len(),
                column@ == handle_column(self.entries@.take(i as int)),
            decreases self.entries@.len() - i,
        {
            column.push(self.entries[i].handle.0);
            i = i + 1;
            assert(column@ == handle_column(self.entries@.take(i as int)));
        }
        assert(self.entries@.take(i as int) == self.entries@);
        column
    }

    /// The array of points that the request's `points` address must point to
    /// for the length of the call.
    pub fn points(&self) -> (column: Vec<u64>)
        ensures
            column@ == point_column(self@),
    {
        let mut column: Vec<u64> = Vec::new();
        let mut i: usize = 0;
        while i < self.entries.len()
            invariant
                i <= self.entries@.len(),
                column@ == point_column(self.entries@.take(i as int)),
            decreases self.entries@.len() - i,
        {
            column.push(self.entries[i].point);
            i = i + 1;
            assert(column@ == point_column(self.entries@.take(i as int)));
        }
        assert(self.entries@.take(i as int) == self.entries@);
        column
    }
}

/// A timeline signal that is ready but for the addresses of its arrays.
#[derive(Debug)]
pub struct TimelineSignalRequest {
    pub batch: TimelineBatch,
    pub flags: SyncobjTimelineSignalFlags,
}

impl TimelineSignalRequest {
    /// The record for the kernel, once the arrays `batch.handles()` and
    /// `batch.points()` stand at the addresses `handles` and `points`.
    pub fn record(&self, handles: u64, points: u64) -> (record: DrmSyncobjTimelineSignal)
        ensures
            record == (DrmSyncobjTimelineSignal {
                handles,
                points,
                count_handles: self.batch@.len() as u32,
                flags: self.flags,
            }),
            record.count_handles == self.batch@.len(),
    {
        DrmSyncobjTimelineSignal {
            handles,
            points,
            count_handles: self.batch.count(),
            flags: self.flags,
        }
    }
}

/// A timeline wait that is ready but for the addresses of its arrays.
#[derive(Debug)]
pub struct TimelineWaitRequest {
    pub batch: TimelineBatch,
    pub timeout_nsec: i64,
    pub flags: SyncobjWaitFlags,
    pub deadline_nsec: u64,
}

impl TimelineWaitRequest {
    /// The record for the kernel, once the arrays `batch.handles()` and
    /// `batch.points()` stand at the addresses `handles` and `points`.
    pub fn record(&self, handles: u64, points: u64) -> (record: DrmSyncobjTimelineWait)
        ensures
            record == (DrmSyncobjTimelineWait {
                handles,
                points,
                timeout_nsec: self.timeout_nsec,
                count_handles: self.batch@.len() as u32,
                flags: self.flags,
                first_signaled: 0,
                _padding: 0,
                deadline_nsec: self.deadline_nsec,
            }),
            record.count_handles == self.batch@.len(),
    {
        DrmSyncobjTimelineWait {
            handles,
            points,
            timeout_nsec: self.timeout_nsec,
            count_handles: self.batch.count(),
            flags: self.flags,
            first_signaled: 0,
            _padding: 0,
            deadline_nsec: self.deadline_nsec,
        }
    }
}

} // verus!
