//! Argument records of the sync-object requests.
//!
//! One record per request, with the fields in the order and of the widths
//! the kernel reads them. A record is filled in, handed to the kernel with
//! the record's request code, and read again after the call: `output` says
//! which of the fields then hold the answer.

use vstd::prelude::*;
use crate::flags::{
    has_bits, SyncobjCreateFlags, SyncobjEventFdFlags, SyncobjFdToHandleFlags,
    SyncobjHandleToFdFlags, SyncobjTimelineQueryFlags, SyncobjTimelineSignalFlags,
    SyncobjTransferFlags, SyncobjWaitFlags,
};
use crate::opcode::{code_group, code_number, code_size, read_write, read_write_code};

verus! {

/// The group byte of every request to a graphics device: the letter `d`.
pub const DRM_IOCTL_BASE: u8 = 0x64;

/// Capability number: the driver supports sync objects.
pub const DRM_CAP_SYNCOBJ: u64 = 0x13;

/// Capability number: the driver supports timeline sync objects.
pub const DRM_CAP_SYNCOBJ_TIMELINE: u64 = 0x14;

/// The request code of the read-write request `number` of the graphics
/// group, for an argument record of `size` bytes.
pub open spec fn drm_code(number: u8, size: usize) -> u32 {
    read_write_code(DRM_IOCTL_BASE, number, size)
}

/// What every request code of this module satisfies: it is the read-write
/// code of its number and record size, and its number, group and size fields
/// can be read back from it.
pub open spec fn is_drm_code(code: u32, number: u8, size: usize) -> bool {
    &&& code == drm_code(number, size)
    &&& code_number(code) == number
    &&& code_group(code) == DRM_IOCTL_BASE
    &&& code_size(code) == size
}

/// Composes the request code of the read-write request `number` of the
/// graphics group for a record of `size` bytes.
pub fn request_code(number: u8, size: usize) -> (code: u32)
    requires
        size < 0x2000,
    ensures
        is_drm_code(code, number, size),
{
    assert(size & 0x1fff == size) by (bit_vector)
        requires
            size < 0x2000,
    ;
    read_write(DRM_IOCTL_BASE, number, size)
}

/// The number of a driver capability.
#[derive(Clone, Copy, Debug, PartialEq, Eq, PartialOrd, Ord, Structural)]
pub struct DrmCap(pub u64);

impl DrmCap {
    /// The capability "sync objects".
    pub fn syncobj() -> (cap: DrmCap)
        ensures
            cap == DrmCap(DRM_CAP_SYNCOBJ),
    {
        DrmCap(DRM_CAP_SYNCOBJ)
    }

    /// The capability "timeline sync objects".
    pub fn syncobj_timeline() -> (cap: DrmCap)
        ensures
            cap == DrmCap(DRM_CAP_SYNCOBJ_TIMELINE),
    {
        DrmCap(DRM_CAP_SYNCOBJ_TIMELINE)
    }

    /// The capability's number.
    pub fn value(&self) -> (value: u64)
        ensures
            value == self.0,
    {
        self.0
    }
}

/// The name of a sync object within one open device.
#[derive(Clone, Copy, Debug, PartialEq, Eq, PartialOrd, Ord, Structural)]
pub struct RawDrmSyncobjHandle(pub u32);

impl RawDrmSyncobjHandle {
    /// The handle that names no object. It stands in the handle field of a
    /// request that the kernel answers with a handle.
    pub fn null() -> (handle: RawDrmSyncobjHandle)
        ensures
            handle == RawDrmSyncobjHandle(0),
    {
        RawDrmSyncobjHandle(0)
    }

    /// Whether this is the handle that names no object.
    pub fn is_null(&self) -> (null: bool)
        ensures
            null == (self.0 == 0),
    {
        self.0 == 0
    }

    /// The handle's number.
    pub fn value(&self) -> (value: u32)
        ensures
            value == self.0,
    {
        self.0
    }
}

/// Capability query: `cap` goes in, `value` comes out.
#[derive(Clone, Copy, Debug, PartialEq, Eq)]
pub struct DrmGetCap {
    pub cap: DrmCap,
    pub value: u64,
}

impl DrmGetCap {
    pub const NUMBER: u8 = 0x0C;

    pub const SIZE: usize = 16;

    /// The query for `cap`, with the answer still blank.
    pub fn query(cap: DrmCap) -> (request: DrmGetCap)
        ensures
            request == (DrmGetCap { cap, value: 0 }),
    {
        DrmGetCap { cap, value: 0 }
    }

    pub fn opcode(&self) -> (code: u32)
        ensures
            is_drm_code(code, Self::NUMBER, Self::SIZE),
    {
        request_code(Self::NUMBER, Self::SIZE)
    }

    /// The capability's value as the kernel reported it.
    pub fn output(&self) -> (value: u64)
        ensures
            value == self.value,
    {
        self.value
    }

    /// Whether the kernel reported the capability as present: any value but
    /// zero.
    pub fn supported(&self) -> (present: bool)
        ensures
            present == (self.value != 0),
    {
        self.value != 0
    }
}

/// Create: `flags` goes in, `handle` comes out.
#[derive(Clone, Copy, Debug, PartialEq, Eq)]
pub struct DrmSyncobjCreate {
    pub handle: u32,
    pub flags: SyncobjCreateFlags,
}

impl DrmSyncobjCreate {
    pub const NUMBER: u8 = 0xBF;

    pub const SIZE: usize = 8;

    pub fn opcode(&self) -> (code: u32)
        ensures
            is_drm_code(code, Self::NUMBER, Self::SIZE),
    {
        request_code(Self::NUMBER, Self::SIZE)
    }

    /// The handle of the object that the kernel created.
    pub fn output(&self) -> (handle: RawDrmSyncobjHandle)
        ensures
            handle == RawDrmSyncobjHandle(self.handle),
    {
        RawDrmSyncobjHandle(self.handle)
    }
}

/// Destroy: `handle` goes in, nothing comes out.
#[derive(Clone, Copy, Debug, PartialEq, Eq)]
pub struct DrmSyncobjDestroy {
    pub handle: RawDrmSyncobjHandle,
    pub _padding: u32,
}

impl DrmSyncobjDestroy {
    pub const NUMBER: u8 = 0xC0;

    pub const SIZE: usize = 8;

    pub fn opcode(&self) -> (code: u32)
        ensures
            is_drm_code(code, Self::NUMBER, Self::SIZE),
    {
        request_code(Self::NUMBER, Self::SIZE)
    }
}

/// Handle to descriptor: `handle`, `flags` and `point` go in, `fd` comes out.
#[derive(Clone, Copy, Debug, PartialEq, Eq)]
pub struct DrmSyncobjHandleToFd {
    pub handle: RawDrmSyncobjHandle,
    pub flags: SyncobjHandleToFdFlags,
    pub fd: i32,
    pub _padding: u32,
    pub point: u64,
}

impl DrmSyncobjHandleToFd {
    pub const NUMBER: u8 = 0xC1;

    pub const SIZE: usize = 24;

    pub fn opcode(&self) -> (code: u32)
        ensures
            is_drm_code(code, Self::NUMBER, Self::SIZE),
    {
        request_code(Self::NUMBER, Self::SIZE)
    }

    /// The number of the descriptor that the kernel opened. The caller owns
    /// that descriptor from here on.
    pub fn output(&self) -> (fd: i32)
        ensures
            fd == self.fd,
    {
        self.fd
    }
}

/// Descriptor to handle: `fd`, `flags`, `point` and, for a binary fence, the
/// target `handle` go in; for an import of a whole object `handle` comes out.
#[derive(Clone, Copy, Debug, PartialEq, Eq)]
pub struct DrmSyncobjFdToHandle {
    pub handle: RawDrmSyncobjHandle,
    pub flags: SyncobjFdToHandleFlags,
    pub fd: i32,
    pub _padding: u32,
    pub point: u64,
}

impl DrmSyncobjFdToHandle {
    pub const NUMBER: u8 = 0xC2;

    pub const SIZE: usize = 24;

    pub fn opcode(&self) -> (code: u32)
        ensures
            is_drm_code(code, Self::NUMBER, Self::SIZE),
    {
        request_code(Self::NUMBER, Self::SIZE)
    }

    /// The handle that the record holds after the call.
    pub fn output(&self) -> (handle: RawDrmSyncobjHandle)
        ensures
            handle == self.handle,
    {
        self.handle
    }
}

/// Transfer: moves the fence at `src_point` of one object to `dst_point` of
/// another; nothing comes out.
#[derive(Clone, Copy, Debug, PartialEq, Eq)]
pub struct DrmSyncobjTransfer {
    pub src_handle: RawDrmSyncobjHandle,
    pub dst_handle: RawDrmSyncobjHandle,
    pub src_point: u64,
    pub dst_point: u64,
    pub flags: SyncobjTransferFlags,
    pub pad: u32,
}

impl DrmSyncobjTransfer {
    pub const NUMBER: u8 = 0xCC;

    pub const SIZE: usize = 32;

    pub fn opcode(&self) -> (code: u32)
        ensures
            is_drm_code(code, Self::NUMBER, Self::SIZE),
    {
        request_code(Self::NUMBER, Self::SIZE)
    }
}

/// What a wait reports besides success: the index of the first object that
/// became ready when the wait was for any object of the batch, nothing when
/// it was for all of them.
pub open spec fn first_ready(flags: SyncobjWaitFlags, first_signaled: u32) -> Option<u32> {
    if has_bits(flags.bits, SyncobjWaitFlags::ALL) {
        None
    } else {
        Some(first_signaled)
    }
}

/// Wait on binary sync objects. `handles` is the address of `count_handles`
/// handles; `first_signaled` comes out.
#[derive(Clone, Copy, Debug, PartialEq, Eq)]
pub struct DrmSyncobjWait {
    pub handles: u64,
    pub timeout_nsec: i64,
    pub count_handles: u32,
    pub flags: SyncobjWaitFlags,
    pub first_signaled: u32,
    pub _padding: u32,
    pub deadline_nsec: u64,
}

impl DrmSyncobjWait {
    pub const NUMBER: u8 = 0xC3;

    pub const SIZE: usize = 40;

    pub fn opcode(&self) -> (code: u32)
        ensures
            is_drm_code(code, Self::NUMBER, Self::SIZE),
    {
        request_code(Self::NUMBER, Self::SIZE)
    }

    /// The index of the first ready object, unless the wait was for all.
    pub fn output(&self) -> (first: Option<u32>)
        ensures
            first == first_ready(self.flags, self.first_signaled),
    {
        if self.flags.contains(SyncobjWaitFlags::all()) {
            None
        } else {
            Some(self.first_signaled)
        }
    }
}

/// Wait on timeline points. `handles` and `points` are the addresses of
/// `count_handles` handles and as many points; `first_signaled` comes out.
#[derive(Clone, Copy, Debug, PartialEq, Eq)]
pub struct DrmSyncobjTimelineWait {
    pub handles: u64,
    pub points: u64,
    pub timeout_nsec: i64,
    pub count_handles: u32,
    pub flags: SyncobjWaitFlags,
    pub first_signaled: u32,
    pub _padding: u32,
    pub deadline_nsec: u64,
}

impl DrmSyncobjTimelineWait {
    pub const NUMBER: u8 = 0xCA;

    pub const SIZE: usize = 48;

    pub fn opcode(&self) -> (code: u32)
        ensures
            is_drm_code(code, Self::NUMBER, Self::SIZE),
    {
        request_code(Self::NUMBER, Self::SIZE)
    }

    /// The index of the first ready object, unless the wait was for all.
    pub fn output(&self) -> (first: Option<u32>)
        ensures
            first == first_ready(self.flags, self.first_signaled),
    {
        if self.flags.contains(SyncobjWaitFlags::all()) {
            None
        } else {
            Some(self.first_signaled)
        }
    }
}

/// Registration of an event descriptor: `fd` becomes readable once `handle`
/// reaches `point`; nothing comes out.
#[derive(Clone, Copy, Debug, PartialEq, Eq)]
pub struct DrmSyncobjEventFd {
    pub handle: RawDrmSyncobjHandle,
    pub flags: SyncobjEventFdFlags,
    pub point: u64,
    pub fd: i32,
    pub _padding: u32,
}

impl DrmSyncobjEventFd {
    pub const NUMBER: u8 = 0xCF;

    pub const SIZE: usize = 24;

    pub fn opcode(&self) -> (code: u32)
        ensures
            is_drm_code(code, Self::NUMBER, Self::SIZE),
    {
        request_code(Self::NUMBER, Self::SIZE)
    }
}

/// Reset of binary sync objects to unsignaled. `handles` is the address of
/// `count_handles` handles; nothing comes out.
#[derive(Clone, Copy, Debug, PartialEq, Eq)]
pub struct DrmSyncobjReset {
    pub handles: u64,
    pub count_handles: u32,
    pub pad: u32,
}

impl DrmSyncobjReset {
    pub const NUMBER: u8 = 0xC4;

    pub const SIZE: usize = 16;

    pub fn opcode(&self) -> (code: u32)
        ensures
            is_drm_code(code, Self::NUMBER, Self::SIZE),
    {
        request_code(Self::NUMBER, Self::SIZE)
    }
}

/// Signal of binary sync objects. `handles` is the address of
/// `count_handles` handles; nothing comes out.
#[derive(Clone, Copy, Debug, PartialEq, Eq)]
pub struct DrmSyncobjSignal {
    pub handles: u64,
    pub count_handles: u32,
    pub pad: u32,
}

impl DrmSyncobjSignal {
    pub const NUMBER: u8 = 0xC5;

    pub const SIZE: usize = 16;

    pub fn opcode(&self) -> (code: u32)
        ensures
            is_drm_code(code, Self::NUMBER, Self::SIZE),
    {
        request_code(Self::NUMBER, Self::SIZE)
    }
}

/// Signal of timeline points. `handles` and `points` are the addresses of
/// `count_handles` handles and as many points; nothing comes out.
#[derive(Clone, Copy, Debug, PartialEq, Eq)]
pub struct DrmSyncobjTimelineSignal {
    pub handles: u64,
    pub points: u64,
    pub count_handles: u32,
    pub flags: SyncobjTimelineSignalFlags,
}

impl DrmSyncobjTimelineSignal {
    pub const NUMBER: u8 = 0xCD;

    pub const SIZE: usize = 24;

    pub fn opcode(&self) -> (code: u32)
        ensures
            is_drm_code(code, Self::NUMBER, Self::SIZE),
    {
        request_code(Self::NUMBER, Self::SIZE)
    }
}

/// Query of timeline counters. `handles` is the address of `count_handles`
/// handles, `points` the address of as many words, which the kernel fills
/// with one counter value per handle.
#[derive(Clone, Copy, Debug, PartialEq, Eq)]
pub struct DrmSyncobjTimelineQuery {
    pub handles: u64,
    pub points: u64,
    pub count_handles: u32,
    pub flags: SyncobjTimelineQueryFlags,
}

impl DrmSyncobjTimelineQuery {
    pub const NUMBER: u8 = 0xCB;

    pub const SIZE: usize = 24;

    pub fn opcode(&self) -> (code: u32)
        ensures
            is_drm_code(code, Self::NUMBER, Self::SIZE),
    {
        request_code(Self::NUMBER, Self::SIZE)
    }

    /// The counters that the kernel wrote: the first `count_handles` words
    /// of `region`, the memory that `points` was the address of, copied out.
    /// A region shorter than the record's count holds no answer.
    pub fn output(&self, region: &[u64]) -> (counters: Option<Vec<u64>>)
        ensures
            self.count_handles > region@.len() ==> counters is None,
            self.count_handles <= region@.len() ==> counters is Some && counters.unwrap()@
                == region@.take(self.count_handles as int),
    {
        let count = self.count_handles as usize;
        if count > region.len() {
            return None;
        }
        let mut counters: Vec<u64> = Vec::new();
        let mut i: usize = 0;
        while i < count
            invariant
                i <= count <= region@.len(),
                counters@ == region@.take(i as int),
            decreases count - i,
        {
            counters.push(region[i]);
            i = i + 1;
            assert(region@.take(i as int) == region@.take(i - 1).push(region@[i - 1]));
        }
        Some(counters)
    }
}

} // verus!
