use drm_syncobj::error::{OsError, EAGAIN, ETIME};

#[test]
fn error_numbers() {
    assert_eq!(ETIME, 62);
    assert_eq!(EAGAIN, 11);
    assert_eq!(ETIME, rustix::io::Errno::TIME.raw_os_error());
    assert_eq!(EAGAIN, rustix::io::Errno::AGAIN.raw_os_error());
}

#[test]
fn error_keeps_its_number() {
    assert_eq!(OsError::from_raw(13).raw(), 13);
    assert_eq!(OsError::from_raw(13), OsError { code: 13 });
    assert_ne!(OsError::from_raw(13), OsError::from_raw(14));
}

#[test]
fn timeout_is_told_apart() {
    assert!(OsError::from_raw(ETIME).is_timeout());
    assert!(!OsError::from_raw(EAGAIN).is_timeout());
    assert!(!OsError::from_raw(0).is_timeout());
    assert!(OsError::from_raw(EAGAIN).is_would_block());
    assert!(!OsError::from_raw(ETIME).is_would_block());
}
