//! Timeline sync objects of the Linux graphics drivers, without the system
//! calls.
//!
//! A timeline sync object synchronises work between the processor, the
//! graphics device and other processes. This library holds what there is to
//! decide about such an object: the argument records of its requests and
//! their request codes (`bindings`, `flags`, `opcode`), the batches of points
//! that the signal and wait requests carry (`batch`), the life of an object
//! from its creation or import to its destruction and the requests of its
//! operations (`timeline_syncobj`), and the steps of a wait that suspends a
//! task instead of a thread (`async_wait`). The caller opens the device
//! (`render_node`), submits what the library hands out and reports the
//! answers. `model` states what the requests mean to the kernel and what
//! follows from that for signals and waits.

use vstd::prelude::*;

pub mod async_wait;
pub mod batch;
pub mod bindings;
pub mod error;
pub mod flags;
pub mod model;
pub mod opcode;
pub mod render_node;
pub mod timeline_syncobj;

verus! {

/// The sum of two points on a timeline, for sums that fit in 64 bits.
pub fn add(left: u64, right: u64) -> (sum: u64)
    requires
        left + right <= u64::MAX,
    ensures
        sum == left + right,
{
    left + right
}

} // verus!
