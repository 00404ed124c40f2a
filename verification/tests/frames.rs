use mcpi::connection::FrameBuffer;

#[test]
fn frames_are_extracted_in_order_and_residue_stays() {
    let mut buffer = FrameBuffer::new();
    buffer.feed(b"first\nsecond\nrest");
    let frames = buffer.extract_frames();
    assert_eq!(frames, vec![b"first".to_vec(), b"second".to_vec()]);
    // the bytes after the last newline stay buffered
    assert_eq!(buffer.len(), 4);
    buffer.feed(b" of it\n");
    let frames = buffer.extract_frames();
    assert_eq!(frames, vec![b"rest of it".to_vec()]);
    assert_eq!(buffer.len(), 0);
}

#[test]
fn three_newlines_give_three_frames() {
    let mut buffer = FrameBuffer::new();
    buffer.feed(b"a\n\nbc\n");
    let frames = buffer.extract_frames();
    assert_eq!(frames, vec![b"a".to_vec(), b"".to_vec(), b"bc".to_vec()]);
}

#[test]
fn no_newline_means_no_frame() {
    let mut buffer = FrameBuffer::new();
    buffer.feed(b"incomplete");
    assert_eq!(buffer.try_next_frame(), None);
    assert_eq!(buffer.len(), 10);
}

#[test]
fn feeding_in_pieces_equals_feeding_at_once() {
    let mut split = FrameBuffer::new();
    split.feed(b"hel");
    assert_eq!(split.try_next_frame(), None);
    split.feed(b"lo\nwor");
    assert_eq!(split.try_next_frame(), Some(b"hello".to_vec()));
    split.feed(b"ld\n");
    assert_eq!(split.try_next_frame(), Some(b"world".to_vec()));
    assert_eq!(split.try_next_frame(), None);
}
