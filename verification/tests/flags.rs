use drm_syncobj::flags::{
    SyncobjCreateFlags, SyncobjEventFdFlags, SyncobjFdToHandleFlags, SyncobjHandleToFdFlags,
    SyncobjTimelineQueryFlags, SyncobjTimelineSignalFlags, SyncobjTransferFlags,
    SyncobjWaitFlags,
};

#[test]
fn named_bits() {
    assert_eq!(SyncobjCreateFlags::CREATE_SIGNALED, 1 << 0);
    assert_eq!(SyncobjFdToHandleFlags::IMPORT_SYNC_FILE, 1 << 0);
    assert_eq!(SyncobjFdToHandleFlags::TIMELINE, 1 << 1);
    assert_eq!(SyncobjHandleToFdFlags::EXPORT_SYNC_FILE, 1 << 0);
    assert_eq!(SyncobjHandleToFdFlags::TIMELINE, 1 << 1);
    assert_eq!(SyncobjWaitFlags::ALL, 1 << 0);
    assert_eq!(SyncobjWaitFlags::FOR_SUBMIT, 1 << 1);
    assert_eq!(SyncobjWaitFlags::AVAILABLE, 1 << 2);
    assert_eq!(SyncobjWaitFlags::DEADLINE, 1 << 3);
    assert_eq!(SyncobjEventFdFlags::WAIT_AVAILABLE, 1 << 0);
    assert_eq!(SyncobjTimelineQueryFlags::LAST_SUBMITTED, 1 << 0);
}

#[test]
fn named_sets_hold_their_bit() {
    assert_eq!(SyncobjCreateFlags::create_signaled().bits(), 1);
    assert_eq!(SyncobjFdToHandleFlags::import_sync_file().bits(), 1);
    assert_eq!(SyncobjFdToHandleFlags::timeline().bits(), 2);
    assert_eq!(SyncobjHandleToFdFlags::export_sync_file().bits(), 1);
    assert_eq!(SyncobjHandleToFdFlags::timeline().bits(), 2);
    assert_eq!(SyncobjWaitFlags::all().bits(), 1);
    assert_eq!(SyncobjWaitFlags::for_submit().bits(), 2);
    assert_eq!(SyncobjWaitFlags::available().bits(), 4);
    assert_eq!(SyncobjWaitFlags::deadline().bits(), 8);
    assert_eq!(SyncobjEventFdFlags::wait_available().bits(), 1);
    assert_eq!(SyncobjTimelineQueryFlags::last_submitted().bits(), 1);
}

#[test]
fn empty_sets() {
    assert_eq!(SyncobjCreateFlags::empty().bits(), 0);
    assert!(SyncobjCreateFlags::empty().is_empty());
    assert!(SyncobjTransferFlags::empty().is_empty());
    assert!(SyncobjTimelineSignalFlags::empty().is_empty());
    assert!(!SyncobjWaitFlags::all().is_empty());
    assert!(SyncobjWaitFlags::all().contains(SyncobjWaitFlags::empty()));
    assert!(!SyncobjWaitFlags::empty().contains(SyncobjWaitFlags::all()));
}

#[test]
fn unknown_bits_pass_through() {
    let bits = 0xDEAD_BEE0;
    assert_eq!(SyncobjCreateFlags::from_bits_retain(bits).bits(), bits);
    assert_eq!(SyncobjFdToHandleFlags::from_bits_retain(bits).bits(), bits);
    assert_eq!(SyncobjHandleToFdFlags::from_bits_retain(bits).bits(), bits);
    assert_eq!(SyncobjTransferFlags::from_bits_retain(bits).bits(), bits);
    assert_eq!(SyncobjWaitFlags::from_bits_retain(bits).bits(), bits);
    assert_eq!(SyncobjEventFdFlags::from_bits_retain(bits).bits(), bits);
    assert_eq!(SyncobjTimelineQueryFlags::from_bits_retain(bits).bits(), bits);
    assert_eq!(SyncobjTimelineSignalFlags::from_bits_retain(bits).bits(), bits);
    assert_eq!(SyncobjWaitFlags::from_bits_retain(u32::MAX).bits(), u32::MAX);
}

#[test]
fn union_keeps_unknown_bits() {
    let known = SyncobjWaitFlags::all().union(SyncobjWaitFlags::deadline());
    assert_eq!(known.bits(), 0x9);
    let more = known.union(SyncobjWaitFlags::from_bits_retain(0x4000_0000));
    assert_eq!(more.bits(), 0x4000_0009);
    assert!(more.contains(known));
    assert!(more.contains(SyncobjWaitFlags::from_bits_retain(0x4000_0000)));
    assert!(!known.contains(more));
}

#[test]
fn contains_asks_for_every_bit() {
    let set = SyncobjWaitFlags::from_bits_retain(0b0101);
    assert!(set.contains(SyncobjWaitFlags::all()));
    assert!(set.contains(SyncobjWaitFlags::available()));
    assert!(!set.contains(SyncobjWaitFlags::for_submit()));
    assert!(!set.contains(SyncobjWaitFlags::from_bits_retain(0b0111)));
    assert!(set.contains(set));
}

#[test]
fn sets_compare_by_their_bits() {
    assert_eq!(SyncobjWaitFlags::from_bits_retain(4), SyncobjWaitFlags::available());
    assert_ne!(SyncobjWaitFlags::from_bits_retain(5), SyncobjWaitFlags::available());
    assert_eq!(
        SyncobjFdToHandleFlags::import_sync_file().union(SyncobjFdToHandleFlags::timeline()),
        SyncobjFdToHandleFlags::from_bits_retain(3)
    );
}
