use drm_syncobj::render_node::DrmRenderNode;

#[test]
fn path_of_the_first_node() {
    assert_eq!(DrmRenderNode::device_path(0), "/dev/dri/renderD0");
}

#[test]
fn path_with_one_digit() {
    assert_eq!(DrmRenderNode::device_path(7), "/dev/dri/renderD7");
    assert_eq!(DrmRenderNode::device_path(9), "/dev/dri/renderD9");
}

#[test]
fn path_with_two_digits() {
    assert_eq!(DrmRenderNode::device_path(10), "/dev/dri/renderD10");
    assert_eq!(DrmRenderNode::device_path(42), "/dev/dri/renderD42");
    assert_eq!(DrmRenderNode::device_path(99), "/dev/dri/renderD99");
}

#[test]
fn path_with_three_digits() {
    assert_eq!(DrmRenderNode::device_path(100), "/dev/dri/renderD100");
    assert_eq!(DrmRenderNode::device_path(101), "/dev/dri/renderD101");
    assert_eq!(DrmRenderNode::device_path(128), "/dev/dri/renderD128");
    assert_eq!(DrmRenderNode::device_path(200), "/dev/dri/renderD200");
    assert_eq!(DrmRenderNode::device_path(255), "/dev/dri/renderD255");
}

#[test]
fn path_takes_the_low_eight_bits() {
    assert_eq!(DrmRenderNode::device_path(256), "/dev/dri/renderD0");
    assert_eq!(DrmRenderNode::device_path(256 + 128), "/dev/dri/renderD128");
    assert_eq!(DrmRenderNode::device_path(0xFFFF_FFFF_FFFF_FF80), "/dev/dri/renderD128");
    assert_eq!(DrmRenderNode::device_path(u64::MAX), "/dev/dri/renderD255");
}

#[test]
fn path_agrees_with_formatting_for_every_node() {
    for id in 0u64..1024 {
        assert_eq!(DrmRenderNode::device_path(id), format!("/dev/dri/renderD{}", id & 0xFF));
    }
}

#[test]
fn open_request_is_read_write_and_close_on_exec() {
    let open = DrmRenderNode::open_request(129);
    assert_eq!(open.path, "/dev/dri/renderD129");
    assert!(open.read_write);
    assert!(open.close_on_exec);
}

#[test]
fn node_keeps_its_number_and_token() {
    let node = DrmRenderNode::new(0x1_80, 77);
    assert_eq!(node.node(), 0x80);
    assert_eq!(node.token(), 77);
}

#[test]
fn nodes_are_equal_by_token_alone() {
    let first = DrmRenderNode::new(128, 1);
    let copy = first;
    let again = DrmRenderNode::new(128, 2);
    let other_number = DrmRenderNode::new(129, 1);
    assert!(first == copy);
    assert!(first != again);
    assert!(first == other_number);
}
