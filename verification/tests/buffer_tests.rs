use video_capture::buffer::{PacketBuffer, KEY_FRAME_FLAGS};

#[test]
fn non_key_packets_are_appended() {
    let mut buffer = PacketBuffer::new();
    buffer.push(0, "a");
    buffer.push(0, "b");
    assert_eq!(buffer.len(), 2);
    assert_eq!(buffer.drain(), vec!["a", "b"]);
}

#[test]
fn key_frame_discards_older_packets() {
    let mut buffer = PacketBuffer::new();
    buffer.push(KEY_FRAME_FLAGS, "k1");
    buffer.push(0, "p1");
    buffer.push(0, "p2");
    buffer.push(KEY_FRAME_FLAGS, "k2");
    buffer.push(0, "p3");
    assert_eq!(buffer.drain(), vec!["k2", "p3"]);
}

#[test]
fn only_flags_equal_to_one_mark_a_key_frame() {
    let mut buffer = PacketBuffer::new();
    buffer.push(0, 1);
    buffer.push(3, 2);
    buffer.push(2, 3);
    assert_eq!(buffer.drain(), vec![1, 2, 3]);
}

#[test]
fn drain_leaves_an_empty_buffer() {
    let mut buffer = PacketBuffer::new();
    assert!(buffer.is_empty());
    buffer.push(KEY_FRAME_FLAGS, 7u8);
    assert!(!buffer.is_empty());
    assert_eq!(buffer.drain(), vec![7u8]);
    assert!(buffer.is_empty());
    assert_eq!(buffer.drain(), Vec::<u8>::new());
}

#[test]
fn packets_after_drain_are_kept_without_a_key_frame() {
    let mut buffer = PacketBuffer::new();
    buffer.push(KEY_FRAME_FLAGS, 'k');
    let _ = buffer.drain();
    buffer.push(0, 'p');
    assert_eq!(buffer.drain(), vec!['p']);
}

#[test]
fn key_frame_stays_at_front_across_drains() {
    let mut buffer = PacketBuffer::new();
    buffer.push(0, 'a');
    buffer.push(KEY_FRAME_FLAGS, 'k');
    buffer.push(0, 'b');
    assert_eq!(buffer.len(), 2);
    assert_eq!(buffer.drain(), vec!['k', 'b']);
    buffer.push(0, 'c');
    buffer.push(KEY_FRAME_FLAGS, 'l');
    assert_eq!(buffer.drain(), vec!['l']);
}
