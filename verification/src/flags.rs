//! Typed option sets of the sync-object requests.
//!
//! Every set is a 32-bit word. A set names the bits this version knows and
//! keeps every other bit exactly as given, so that bits a newer kernel
//! defines pass through unchanged.

use vstd::prelude::*;

verus! {

/// `set` holds every bit of `bits`.
pub open spec fn has_bits(set: u32, bits: u32) -> bool {
    set & bits == bits
}

/// No bit is lost in a union, named or not: the union of two sets holds
/// each of them, and it is the smallest set that does.
pub proof fn lemma_union_keeps_every_bit(a: u32, b: u32)
    ensures
        has_bits(a | b, a),
        has_bits(a | b, b),
        forall|c: u32| has_bits(c, a) && has_bits(c, b) ==> #[trigger] has_bits(c, a | b),
{
    assert(has_bits(a | b, a) && has_bits(a | b, b)) by (bit_vector);
    assert forall|c: u32| has_bits(c, a) && has_bits(c, b) implies #[trigger] has_bits(
        c,
        a | b,
    ) by {
        assert((c & a == a && c & b == b) ==> (c & (a | b) == (a | b))) by (bit_vector);
    }
}

/// Options of the create request.
#[derive(Clone, Copy, Debug, PartialEq, Eq, Structural)]
pub struct SyncobjCreateFlags {
    pub bits: u32,
}

impl SyncobjCreateFlags {
    /// The new object starts out signaled.
    pub const CREATE_SIGNALED: u32 = 0x1;

    /// The set with no bit.
    pub fn empty() -> (flags: Self)
        ensures
            flags.bits == 0,
    {
        SyncobjCreateFlags { bits: 0 }
    }

    /// The set with the one bit `CREATE_SIGNALED`.
    pub fn create_signaled() -> (flags: Self)
        ensures
            flags.bits == Self::CREATE_SIGNALED,
    {
        SyncobjCreateFlags { bits: Self::CREATE_SIGNALED }
    }

    /// The set with exactly the bits of `bits`, named or not.
    pub fn from_bits_retain(bits: u32) -> (flags: Self)
        ensures
            flags.bits == bits,
    {
        SyncobjCreateFlags { bits }
    }

    /// The word that goes to the kernel.
    pub fn bits(&self) -> (bits: u32)
        ensures
            bits == self.bits,
    {
        self.bits
    }

    /// Whether no bit is set.
    pub fn is_empty(&self) -> (empty: bool)
        ensures
            empty == (self.bits == 0),
    {
        self.bits == 0
    }

    /// Whether every bit of `other` is set in `self`.
    pub fn contains(&self, other: Self) -> (held: bool)
        ensures
            held == has_bits(self.bits, other.bits),
    {
        self.bits & other.bits == other.bits
    }

    /// The bits of both sets.
    pub fn union(self, other: Self) -> (flags: Self)
        ensures
            flags.bits == self.bits | other.bits,
    {
        SyncobjCreateFlags { bits: self.bits | other.bits }
    }
}

/// Options of the descriptor-to-handle request.
#[derive(Clone, Copy, Debug, PartialEq, Eq, Structural)]
pub struct SyncobjFdToHandleFlags {
    pub bits: u32,
}

impl SyncobjFdToHandleFlags {
    /// The descriptor is a binary fence to be attached to an existing handle.
    pub const IMPORT_SYNC_FILE: u32 = 0x1;

    /// The request carries a timeline point.
    pub const TIMELINE: u32 = 0x2;

    /// The set with no bit.
    pub fn empty() -> (flags: Self)
        ensures
            flags.bits == 0,
    {
        SyncobjFdToHandleFlags { bits: 0 }
    }

    /// The set with the one bit `IMPORT_SYNC_FILE`.
    pub fn import_sync_file() -> (flags: Self)
        ensures
            flags.bits == Self::IMPORT_SYNC_FILE,
    {
        SyncobjFdToHandleFlags { bits: Self::IMPORT_SYNC_FILE }
    }

    /// The set with the one bit `TIMELINE`.
    pub fn timeline() -> (flags: Self)
        ensures
            flags.bits == Self::TIMELINE,
    {
        SyncobjFdToHandleFlags { bits: Self::TIMELINE }
    }

    /// The set with exactly the bits of `bits`, named or not.
    pub fn from_bits_retain(bits: u32) -> (flags: Self)
        ensures
            flags.bits == bits,
    {
        SyncobjFdToHandleFlags { bits }
    }

    /// The word that goes to the kernel.
    pub fn bits(&self) -> (bits: u32)
        ensures
            bits == self.bits,
    {
        self.bits
    }

    /// Whether no bit is set.
    pub fn is_empty(&self) -> (empty: bool)
        ensures
            empty == (self.bits == 0),
    {
        self.bits == 0
    }

    /// Whether every bit of `other` is set in `self`.
    pub fn contains(&self, other: Self) -> (held: bool)
        ensures
            held == has_bits(self.bits, other.bits),
    {
        self.bits & other.bits == other.bits
    }

    /// The bits of both sets.
    pub fn union(self, other: Self) -> (flags: Self)
        ensures
            flags.bits == self.bits | other.bits,
    {
        SyncobjFdToHandleFlags { bits: self.bits | other.bits }
    }
}

/// Options of the handle-to-descriptor request.
#[derive(Clone, Copy, Debug, PartialEq, Eq, Structural)]
pub struct SyncobjHandleToFdFlags {
    pub bits: u32,
}

impl SyncobjHandleToFdFlags {
    /// Export the current fence as a binary fence descriptor.
    pub const EXPORT_SYNC_FILE: u32 = 0x1;

    /// The request carries a timeline point.
    pub const TIMELINE: u32 = 0x2;

    /// The set with no bit.
    pub fn empty() -> (flags: Self)
        ensures
            flags.bits == 0,
    {
        SyncobjHandleToFdFlags { bits: 0 }
    }

    /// The set with the one bit `EXPORT_SYNC_FILE`.
    pub fn export_sync_file() -> (flags: Self)
        ensures
            flags.bits == Self::EXPORT_SYNC_FILE,
    {
        SyncobjHandleToFdFlags { bits: Self::EXPORT_SYNC_FILE }
    }

    /// The set with the one bit `TIMELINE`.
    pub fn timeline() -> (flags: Self)
        ensures
            flags.bits == Self::TIMELINE,
    {
        SyncobjHandleToFdFlags { bits: Self::TIMELINE }
    }

    /// The set with exactly the bits of `bits`, named or not.
    pub fn from_bits_retain(bits: u32) -> (flags: Self)
        ensures
            flags.bits == bits,
    {
        SyncobjHandleToFdFlags { bits }
    }

    /// The word that goes to the kernel.
    pub fn bits(&self) -> (bits: u32)
        ensures
            bits == self.bits,
    {
        self.bits
    }

    /// Whether no bit is set.
    pub fn is_empty(&self) -> (empty: bool)
        ensures
            empty == (self.bits == 0),
    {
        self.bits == 0
    }

    /// Whether every bit of `other` is set in `self`.
    pub fn contains(&self, other: Self) -> (held: bool)
        ensures
            held == has_bits(self.bits, other.bits),
    {
        self.bits & other.bits == other.bits
    }

    /// The bits of both sets.
    pub fn union(self, other: Self) -> (flags: Self)
        ensures
            flags.bits == self.bits | other.bits,
    {
        SyncobjHandleToFdFlags { bits: self.bits | other.bits }
    }
}

/// Options of the transfer request; no bit is named yet.
#[derive(Clone, Copy, Debug, PartialEq, Eq, Structural)]
pub struct SyncobjTransferFlags {
    pub bits: u32,
}

impl SyncobjTransferFlags {
    /// The set with no bit.
    pub fn empty() -> (flags: Self)
        ensures
            flags.bits == 0,
    {
        SyncobjTransferFlags { bits: 0 }
    }

    /// The set with exactly the bits of `bits`, named or not.
    pub fn from_bits_retain(bits: u32) -> (flags: Self)
        ensures
            flags.bits == bits,
    {
        SyncobjTransferFlags { bits }
    }

    /// The word that goes to the kernel.
    pub fn bits(&self) -> (bits: u32)
        ensures
            bits == self.bits,
    {
        self.bits
    }

    /// Whether no bit is set.
    pub fn is_empty(&self) -> (empty: bool)
        ensures
            empty == (self.bits == 0),
    {
        self.bits == 0
    }

    /// Whether every bit of `other` is set in `self`.
    pub fn contains(&self, other: Self) -> (held: bool)
        ensures
            held == has_bits(self.bits, other.bits),
    {
        self.bits & other.bits == other.bits
    }

    /// The bits of both sets.
    pub fn union(self, other: Self) -> (flags: Self)
        ensures
            flags.bits == self.bits | other.bits,
    {
        SyncobjTransferFlags { bits: self.bits | other.bits }
    }
}

/// Options of the two wait requests.
#[derive(Clone, Copy, Debug, PartialEq, Eq, Structural)]
pub struct SyncobjWaitFlags {
    pub bits: u32,
}

impl SyncobjWaitFlags {
    /// Wait for every object of the batch instead of the first.
    pub const ALL: u32 = 0x1;

    /// Wait for work to be submitted before waiting for it to finish.
    pub const FOR_SUBMIT: u32 = 0x2;

    /// Wait for the point to become available rather than signaled.
    pub const AVAILABLE: u32 = 0x4;

    /// The request carries an absolute deadline hint.
    pub const DEADLINE: u32 = 0x8;

    /// The set with no bit.
    pub fn empty() -> (flags: Self)
        ensures
            flags.bits == 0,
    {
        SyncobjWaitFlags { bits: 0 }
    }

    /// The set with the one bit `ALL`.
    pub fn all() -> (flags: Self)
        ensures
            flags.bits == Self::ALL,
    {
        SyncobjWaitFlags { bits: Self::ALL }
    }

    /// The set with the one bit `FOR_SUBMIT`.
    pub fn for_submit() -> (flags: Self)
        ensures
            flags.bits == Self::FOR_SUBMIT,
    {
        SyncobjWaitFlags { bits: Self::FOR_SUBMIT }
    }

    /// The set with the one bit `AVAILABLE`.
    pub fn available() -> (flags: Self)
        ensures
            flags.bits == Self::AVAILABLE,
    {
        SyncobjWaitFlags { bits: Self::AVAILABLE }
    }

    /// The set with the one bit `DEADLINE`.
    pub fn deadline() -> (flags: Self)
        ensures
            flags.bits == Self::DEADLINE,
    {
        SyncobjWaitFlags { bits: Self::DEADLINE }
    }

    /// The set with exactly the bits of `bits`, named or not.
    pub fn from_bits_retain(bits: u32) -> (flags: Self)
        ensures
            flags.bits == bits,
    {
        SyncobjWaitFlags { bits }
    }

    /// The word that goes to the kernel.
    pub fn bits(&self) -> (bits: u32)
        ensures
            bits == self.bits,
    {
        self.bits
    }

    /// Whether no bit is set.
    pub fn is_empty(&self) -> (empty: bool)
        ensures
            empty == (self.bits == 0),
    {
        self.bits == 0
    }

    /// Whether every bit of `other` is set in `self`.
    pub fn contains(&self, other: Self) -> (held: bool)
        ensures
            held == has_bits(self.bits, other.bits),
    {
        self.bits & other.bits == other.bits
    }

    /// The bits of both sets.
    pub fn union(self, other: Self) -> (flags: Self)
        ensures
            flags.bits == self.bits | other.bits,
    {
        SyncobjWaitFlags { bits: self.bits | other.bits }
    }
}

/// Options of the event-descriptor registration.
#[derive(Clone, Copy, Debug, PartialEq, Eq, Structural)]
pub struct SyncobjEventFdFlags {
    pub bits: u32,
}

impl SyncobjEventFdFlags {
    /// Notify when the point becomes available rather than signaled.
    pub const WAIT_AVAILABLE: u32 = 0x1;

    /// The set with no bit.
    pub fn empty() -> (flags: Self)
        ensures
            flags.bits == 0,
    {
        SyncobjEventFdFlags { bits: 0 }
    }

    /// The set with the one bit `WAIT_AVAILABLE`.
    pub fn wait_available() -> (flags: Self)
        ensures
            flags.bits == Self::WAIT_AVAILABLE,
    {
        SyncobjEventFdFlags { bits: Self::WAIT_AVAILABLE }
    }

    /// The set with exactly the bits of `bits`, named or not.
    pub fn from_bits_retain(bits: u32) -> (flags: Self)
        ensures
            flags.bits == bits,
    {
        SyncobjEventFdFlags { bits }
    }

    /// The word that goes to the kernel.
    pub fn bits(&self) -> (bits: u32)
        ensures
            bits == self.bits,
    {
        self.bits
    }

    /// Whether no bit is set.
    pub fn is_empty(&self) -> (empty: bool)
        ensures
            empty == (self.bits == 0),
    {
        self.bits == 0
    }

    /// Whether every bit of `other` is set in `self`.
    pub fn contains(&self, other: Self) -> (held: bool)
        ensures
            held == has_bits(self.bits, other.bits),
    {
        self.bits & other.bits == other.bits
    }

    /// The bits of both sets.
    pub fn union(self, other: Self) -> (flags: Self)
        ensures
            flags.bits == self.bits | other.bits,
    {
        SyncobjEventFdFlags { bits: self.bits | other.bits }
    }
}

/// Options of the timeline query.
#[derive(Clone, Copy, Debug, PartialEq, Eq, Structural)]
pub struct SyncobjTimelineQueryFlags {
    pub bits: u32,
}

impl SyncobjTimelineQueryFlags {
    /// Report the last submitted point instead of the last signaled one.
    pub const LAST_SUBMITTED: u32 = 0x1;

    /// The set with no bit.
    pub fn empty() -> (flags: Self)
        ensures
            flags.bits == 0,
    {
        SyncobjTimelineQueryFlags { bits: 0 }
    }

    /// The set with the one bit `LAST_SUBMITTED`.
    pub fn last_submitted() -> (flags: Self)
        ensures
            flags.bits == Self::LAST_SUBMITTED,
    {
        SyncobjTimelineQueryFlags { bits: Self::LAST_SUBMITTED }
    }

    /// The set with exactly the bits of `bits`, named or not.
    pub fn from_bits_retain(bits: u32) -> (flags: Self)
        ensures
            flags.bits == bits,
    {
        SyncobjTimelineQueryFlags { bits }
    }

    /// The word that goes to the kernel.
    pub fn bits(&self) -> (bits: u32)
        ensures
            bits == self.bits,
    {
        self.bits
    }

    /// Whether no bit is set.
    pub fn is_empty(&self) -> (empty: bool)
        ensures
            empty == (self.bits == 0),
    {
        self.bits == 0
    }

    /// Whether every bit of `other` is set in `self`.
    pub fn contains(&self, other: Self) -> (held: bool)
        ensures
            held == has_bits(self.bits, other.bits),
    {
        self.bits & other.bits == other.bits
    }

    /// The bits of both sets.
    pub fn union(self, other: Self) -> (flags: Self)
        ensures
            flags.bits == self.bits | other.bits,
    {
        SyncobjTimelineQueryFlags { bits: self.bits | other.bits }
    }
}

/// Options of the timeline signal request; no bit is named yet.
#[derive(Clone, Copy, Debug, PartialEq, Eq, Structural)]
pub struct SyncobjTimelineSignalFlags {
    pub bits: u32,
}

impl SyncobjTimelineSignalFlags {
    /// The set with no bit.
    pub fn empty() -> (flags: Self)
        ensures
            flags.bits == 0,
    {
        SyncobjTimelineSignalFlags { bits: 0 }
    }

    /// The set with exactly the bits of `bits`, named or not.
    pub fn from_bits_retain(bits: u32) -> (flags: Self)
        ensures
            flags.bits == bits,
    {
        SyncobjTimelineSignalFlags { bits }
    }

    /// The word that goes to the kernel.
    pub fn bits(&self) -> (bits: u32)
        ensures
            bits == self.bits,
    {
        self.bits
    }

    /// Whether no bit is set.
    pub fn is_empty(&self) -> (empty: bool)
        ensures
            empty == (self.bits == 0),
    {
        self.bits == 0
    }

    /// Whether every bit of `other` is set in `self`.
    pub fn contains(&self, other: Self) -> (held: bool)
        ensures
            held == has_bits(self.bits, other.bits),
    {
        self.bits & other.bits == other.bits
    }

    /// The bits of both sets.
    pub fn union(self, other: Self) -> (flags: Self)
        ensures
            flags.bits == self.bits | other.bits,
    {
        SyncobjTimelineSignalFlags { bits: self.bits | other.bits }
    }
}

} // verus!
