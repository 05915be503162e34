use drm_syncobj::add;
use drm_syncobj::bindings::{
    request_code, DrmCap, DrmGetCap, DrmSyncobjCreate, DrmSyncobjDestroy, DrmSyncobjEventFd,
    DrmSyncobjFdToHandle, DrmSyncobjHandleToFd, DrmSyncobjReset, DrmSyncobjSignal,
    DrmSyncobjTimelineQuery, DrmSyncobjTimelineSignal, DrmSyncobjTimelineWait,
    DrmSyncobjTransfer, DrmSyncobjWait, RawDrmSyncobjHandle, DRM_CAP_SYNCOBJ,
    DRM_CAP_SYNCOBJ_TIMELINE, DRM_IOCTL_BASE,
};
use drm_syncobj::flags::{
    SyncobjCreateFlags, SyncobjEventFdFlags, SyncobjFdToHandleFlags, SyncobjHandleToFdFlags,
    SyncobjTimelineQueryFlags, SyncobjTimelineSignalFlags, SyncobjTransferFlags,
    SyncobjWaitFlags,
};
use rustix::ioctl::opcode::from_components;
use rustix::ioctl::Direction;

fn composed(number: u8, size: usize) -> u32 {
    from_components(Direction::ReadWrite, b'd', number, size) as u32
}

#[test]
fn it_works() {
    let result = add(2, 2);
    assert_eq!(result, 4);
}

#[test]
fn add_reaches_the_largest_value() {
    assert_eq!(add(u64::MAX - 1, 1), u64::MAX);
    assert_eq!(add(0, 0), 0);
}

#[test]
fn group_and_capability_numbers() {
    assert_eq!(DRM_IOCTL_BASE, b'd');
    assert_eq!(DRM_CAP_SYNCOBJ, 0x13);
    assert_eq!(DRM_CAP_SYNCOBJ_TIMELINE, 0x14);
    assert_eq!(DrmCap::syncobj(), DrmCap(0x13));
    assert_eq!(DrmCap::syncobj_timeline(), DrmCap(0x14));
    assert_eq!(DrmCap::syncobj_timeline().value(), 0x14);
    assert!(DrmCap::syncobj() < DrmCap::syncobj_timeline());
}

#[test]
fn null_handle_is_zero() {
    assert_eq!(RawDrmSyncobjHandle::null(), RawDrmSyncobjHandle(0));
    assert!(RawDrmSyncobjHandle::null().is_null());
    assert!(!RawDrmSyncobjHandle(3).is_null());
    assert_eq!(RawDrmSyncobjHandle(3).value(), 3);
}

#[test]
fn request_code_is_what_rustix_composes() {
    assert_eq!(request_code(0xBF, 8), composed(0xBF, 8));
    assert_eq!(request_code(0x0C, 16), composed(0x0C, 16));
    assert_eq!(request_code(0, 0), composed(0, 0));
    assert_eq!(request_code(0xFF, 0x1FFF), composed(0xFF, 0x1FFF));
}

#[test]
fn request_code_fields() {
    let code = request_code(0xCA, 48);
    assert_eq!(code & 0xff, 0xCA);
    assert_eq!((code >> 8) & 0xff, 0x64);
    assert_eq!((code >> 16) & 0x1fff, 48);
    assert_ne!(code, 0xCA);
    assert_ne!(code, 48);
}

#[test]
fn request_codes_of_the_records() {
    let cap = DrmGetCap::query(DrmCap::syncobj());
    assert_eq!(cap.opcode(), 0xC010_640C);
    let create = DrmSyncobjCreate { handle: 0, flags: SyncobjCreateFlags::empty() };
    assert_eq!(create.opcode(), 0xC008_64BF);
    let destroy = DrmSyncobjDestroy { handle: RawDrmSyncobjHandle(1), _padding: 0 };
    assert_eq!(destroy.opcode(), 0xC008_64C0);
    let to_fd = DrmSyncobjHandleToFd {
        handle: RawDrmSyncobjHandle(1),
        flags: SyncobjHandleToFdFlags::empty(),
        fd: 0,
        _padding: 0,
        point: 0,
    };
    assert_eq!(to_fd.opcode(), 0xC018_64C1);
    let to_handle = DrmSyncobjFdToHandle {
        handle: RawDrmSyncobjHandle(0),
        flags: SyncobjFdToHandleFlags::empty(),
        fd: 3,
        _padding: 0,
        point: 0,
    };
    assert_eq!(to_handle.opcode(), 0xC018_64C2);
    let wait = DrmSyncobjWait {
        handles: 0,
        timeout_nsec: 0,
        count_handles: 0,
        flags: SyncobjWaitFlags::empty(),
        first_signaled: 0,
        _padding: 0,
        deadline_nsec: 0,
    };
    assert_eq!(wait.opcode(), 0xC028_64C3);
    let reset = DrmSyncobjReset { handles: 0, count_handles: 0, pad: 0 };
    assert_eq!(reset.opcode(), 0xC010_64C4);
    let signal = DrmSyncobjSignal { handles: 0, count_handles: 0, pad: 0 };
    assert_eq!(signal.opcode(), 0xC010_64C5);
    let timeline_wait = DrmSyncobjTimelineWait {
        handles: 0,
        points: 0,
        timeout_nsec: 0,
        count_handles: 0,
        flags: SyncobjWaitFlags::empty(),
        first_signaled: 0,
        _padding: 0,
        deadline_nsec: 0,
    };
    assert_eq!(timeline_wait.opcode(), 0xC030_64CA);
    let query = DrmSyncobjTimelineQuery {
        handles: 0,
        points: 0,
        count_handles: 0,
        flags: SyncobjTimelineQueryFlags::empty(),
    };
    assert_eq!(query.opcode(), 0xC018_64CB);
    let transfer = DrmSyncobjTransfer {
        src_handle: RawDrmSyncobjHandle(1),
        dst_handle: RawDrmSyncobjHandle(2),
        src_point: 0,
        dst_point: 0,
        flags: SyncobjTransferFlags::empty(),
        pad: 0,
    };
    assert_eq!(transfer.opcode(), 0xC020_64CC);
    let timeline_signal = DrmSyncobjTimelineSignal {
        handles: 0,
        points: 0,
        count_handles: 0,
        flags: SyncobjTimelineSignalFlags::empty(),
    };
    assert_eq!(timeline_signal.opcode(), 0xC018_64CD);
    let eventfd = DrmSyncobjEventFd {
        handle: RawDrmSyncobjHandle(1),
        flags: SyncobjEventFdFlags::empty(),
        point: 0,
        fd: 0,
        _padding: 0,
    };
    assert_eq!(eventfd.opcode(), 0xC018_64CF);
}

#[test]
fn request_codes_differ_between_records() {
    let codes = vec![
        request_code(DrmGetCap::NUMBER, DrmGetCap::SIZE),
        request_code(DrmSyncobjCreate::NUMBER, DrmSyncobjCreate::SIZE),
        request_code(DrmSyncobjDestroy::NUMBER, DrmSyncobjDestroy::SIZE),
        request_code(DrmSyncobjHandleToFd::NUMBER, DrmSyncobjHandleToFd::SIZE),
        request_code(DrmSyncobjFdToHandle::NUMBER, DrmSyncobjFdToHandle::SIZE),
        request_code(DrmSyncobjWait::NUMBER, DrmSyncobjWait::SIZE),
        request_code(DrmSyncobjReset::NUMBER, DrmSyncobjReset::SIZE),
        request_code(DrmSyncobjSignal::NUMBER, DrmSyncobjSignal::SIZE),
        request_code(DrmSyncobjTimelineWait::NUMBER, DrmSyncobjTimelineWait::SIZE),
        request_code(DrmSyncobjTimelineQuery::NUMBER, DrmSyncobjTimelineQuery::SIZE),
        request_code(DrmSyncobjTransfer::NUMBER, DrmSyncobjTransfer::SIZE),
        request_code(DrmSyncobjTimelineSignal::NUMBER, DrmSyncobjTimelineSignal::SIZE),
        request_code(DrmSyncobjEventFd::NUMBER, DrmSyncobjEventFd::SIZE),
    ];
    for i in 0..codes.len() {
        for j in 0..codes.len() {
            if i != j {
                assert_ne!(codes[i], codes[j]);
            }
        }
    }
}

#[test]
fn capability_query_output() {
    let blank = DrmGetCap::query(DrmCap::syncobj_timeline());
    assert_eq!(blank, DrmGetCap { cap: DrmCap(0x14), value: 0 });
    assert!(!blank.supported());
    let present = DrmGetCap { cap: DrmCap(0x14), value: 1 };
    assert_eq!(present.output(), 1);
    assert!(present.supported());
    let odd = DrmGetCap { cap: DrmCap(0x14), value: u64::MAX };
    assert!(odd.supported());
}

#[test]
fn create_output_is_the_handle_field() {
    let answered = DrmSyncobjCreate { handle: 42, flags: SyncobjCreateFlags::empty() };
    assert_eq!(answered.output(), RawDrmSyncobjHandle(42));
}

#[test]
fn descriptor_exchange_outputs() {
    let exported = DrmSyncobjHandleToFd {
        handle: RawDrmSyncobjHandle(9),
        flags: SyncobjHandleToFdFlags::timeline(),
        fd: 17,
        _padding: 0,
        point: 0,
    };
    assert_eq!(exported.output(), 17);
    let imported = DrmSyncobjFdToHandle {
        handle: RawDrmSyncobjHandle(5),
        flags: SyncobjFdToHandleFlags::timeline(),
        fd: 17,
        _padding: 0,
        point: 0,
    };
    assert_eq!(imported.output(), RawDrmSyncobjHandle(5));
}

#[test]
fn wait_output_depends_on_the_all_flag() {
    let any = DrmSyncobjWait {
        handles: 0,
        timeout_nsec: 0,
        count_handles: 3,
        flags: SyncobjWaitFlags::for_submit(),
        first_signaled: 2,
        _padding: 0,
        deadline_nsec: 0,
    };
    assert_eq!(any.output(), Some(2));
    let all = DrmSyncobjWait { flags: SyncobjWaitFlags::all(), ..any };
    assert_eq!(all.output(), None);
    let all_and_more = DrmSyncobjWait {
        flags: SyncobjWaitFlags::all().union(SyncobjWaitFlags::from_bits_retain(0x8000_0000)),
        ..any
    };
    assert_eq!(all_and_more.output(), None);
}

#[test]
fn timeline_wait_output_depends_on_the_all_flag() {
    let any = DrmSyncobjTimelineWait {
        handles: 0,
        points: 0,
        timeout_nsec: 0,
        count_handles: 3,
        flags: SyncobjWaitFlags::available(),
        first_signaled: 1,
        _padding: 0,
        deadline_nsec: 0,
    };
    assert_eq!(any.output(), Some(1));
    let all = DrmSyncobjTimelineWait {
        flags: SyncobjWaitFlags::available().union(SyncobjWaitFlags::all()),
        ..any
    };
    assert_eq!(all.output(), None);
}

#[test]
fn query_output_copies_the_counted_words() {
    let query = DrmSyncobjTimelineQuery {
        handles: 0x1000,
        points: 0x2000,
        count_handles: 3,
        flags: SyncobjTimelineQueryFlags::empty(),
    };
    assert_eq!(query.output(&[10, 20, 30]), Some(vec![10, 20, 30]));
    assert_eq!(query.output(&[10, 20, 30, 40, 50]), Some(vec![10, 20, 30]));
}

#[test]
fn query_output_refuses_a_short_region() {
    let query = DrmSyncobjTimelineQuery {
        handles: 0x1000,
        points: 0x2000,
        count_handles: 3,
        flags: SyncobjTimelineQueryFlags::last_submitted(),
    };
    assert_eq!(query.output(&[10, 20]), None);
    assert_eq!(query.output(&[]), None);
}

#[test]
fn query_output_of_an_empty_batch() {
    let query = DrmSyncobjTimelineQuery {
        handles: 0,
        points: 0,
        count_handles: 0,
        flags: SyncobjTimelineQueryFlags::empty(),
    };
    assert_eq!(query.output(&[]), Some(vec![]));
    assert_eq!(query.output(&[7]), Some(vec![]));
}
