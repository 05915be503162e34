use drm_syncobj::batch::{TimelineBatch, TimelineSignalRequest, TimelineWaitRequest};
use drm_syncobj::bindings::{
    DrmSyncobjTimelineSignal, DrmSyncobjTimelineWait, RawDrmSyncobjHandle,
};
use drm_syncobj::flags::{SyncobjTimelineSignalFlags, SyncobjWaitFlags};

#[test]
fn new_batch_is_empty() {
    let batch = TimelineBatch::new();
    assert_eq!(batch.count(), 0);
    assert_eq!(batch.handles(), Vec::<u32>::new());
    assert_eq!(batch.points(), Vec::<u64>::new());
}

#[test]
fn single_batch_holds_one_pair() {
    let batch = TimelineBatch::single(RawDrmSyncobjHandle(7), 42);
    assert_eq!(batch.count(), 1);
    assert_eq!(batch.handles(), vec![7]);
    assert_eq!(batch.points(), vec![42]);
}

#[test]
fn push_keeps_the_order_of_the_pairs() {
    let mut batch = TimelineBatch::new();
    assert!(batch.push(RawDrmSyncobjHandle(3), 30));
    assert!(batch.push(RawDrmSyncobjHandle(1), 10));
    assert!(batch.push(RawDrmSyncobjHandle(2), u64::MAX));
    assert!(batch.push(RawDrmSyncobjHandle(1), 0));
    assert_eq!(batch.count(), 4);
    assert_eq!(batch.handles(), vec![3, 1, 2, 1]);
    assert_eq!(batch.points(), vec![30, 10, u64::MAX, 0]);
}

#[test]
fn signal_record_counts_the_batch() {
    let mut batch = TimelineBatch::new();
    batch.push(RawDrmSyncobjHandle(3), 30);
    batch.push(RawDrmSyncobjHandle(1), 10);
    let request =
        TimelineSignalRequest { batch, flags: SyncobjTimelineSignalFlags::from_bits_retain(6) };
    assert_eq!(
        request.record(0x1000, 0x2000),
        DrmSyncobjTimelineSignal {
            handles: 0x1000,
            points: 0x2000,
            count_handles: 2,
            flags: SyncobjTimelineSignalFlags::from_bits_retain(6),
        }
    );
}

#[test]
fn wait_record_counts_the_batch_and_blanks_the_answer() {
    let mut batch = TimelineBatch::new();
    batch.push(RawDrmSyncobjHandle(3), 30);
    batch.push(RawDrmSyncobjHandle(1), 10);
    batch.push(RawDrmSyncobjHandle(4), 10);
    let request = TimelineWaitRequest {
        batch,
        timeout_nsec: 1_000_000,
        flags: SyncobjWaitFlags::all(),
        deadline_nsec: 55,
    };
    assert_eq!(
        request.record(0x1000, 0x2000),
        DrmSyncobjTimelineWait {
            handles: 0x1000,
            points: 0x2000,
            timeout_nsec: 1_000_000,
            count_handles: 3,
            flags: SyncobjWaitFlags::all(),
            first_signaled: 0,
            _padding: 0,
            deadline_nsec: 55,
        }
    );
}
