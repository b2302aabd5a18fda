use etf_trace::demux::words_to_le_bytes;
use etf_trace::{demultiplex, select_tag, Demultiplexer, TaggedByte};

fn tb(tag: u8, byte: u8) -> TaggedByte {
    TaggedByte { tag, byte }
}

/// Bytes 03 AA 10 22 | 05 33 44 55 | 66 77 88 99 | AA BB 07 06: an ID change
/// to tag 1 taking effect at once, a data byte whose low bit comes from the
/// auxiliary byte, an ID change to tag 2 delayed by one byte, and a final ID
/// change to tag 3 that carries into the next frame.
const FRAME_ONE: [u32; 4] = [0x2210_AA03, 0x5544_3305, 0x9988_7766, 0x0607_BBAA];

/// Bytes 02 01 04 05 | 06 07 08 09 | 0A 0B 0C 0D | 0E 0F 10 81: data only,
/// with auxiliary bits 0 and 7 set.
const FRAME_TWO: [u32; 4] = [0x0504_0102, 0x0908_0706, 0x0D0C_0B0A, 0x8110_0F0E];

fn frame_one_out() -> Vec<TaggedByte> {
    vec![
        tb(1, 0xAA),
        tb(1, 0x11),
        tb(1, 0x22),
        tb(1, 0x33),
        tb(2, 0x44),
        tb(2, 0x55),
        tb(2, 0x66),
        tb(2, 0x77),
        tb(2, 0x88),
        tb(2, 0x99),
        tb(2, 0xAA),
        tb(2, 0xBB),
    ]
}

fn frame_two_out(tag: u8) -> Vec<TaggedByte> {
    [0x03, 0x01, 0x04, 0x05, 0x06, 0x07, 0x08, 0x09, 0x0A, 0x0B, 0x0C, 0x0D, 0x0E, 0x0F, 0x11]
        .iter()
        .map(|&b| tb(tag, b))
        .collect()
}

#[test]
fn words_split_little_endian() {
    assert_eq!(words_to_le_bytes(&vec![0x4433_2211, 0x0000_00FF]), vec![0x11, 0x22, 0x33, 0x44, 0xFF, 0, 0, 0]);
    assert_eq!(words_to_le_bytes(&vec![]), Vec::<u8>::new());
}

#[test]
fn single_frame_with_tag_changes() {
    let (out, tag) = demultiplex(&FRAME_ONE.to_vec(), 0);
    assert_eq!(out, frame_one_out());
    assert_eq!(tag, 3);
}

#[test]
fn tag_carries_into_next_frame() {
    let mut words = FRAME_ONE.to_vec();
    words.extend_from_slice(&FRAME_TWO);
    let (out, tag) = demultiplex(&words, 0);
    let mut expected = frame_one_out();
    expected.extend(frame_two_out(3));
    assert_eq!(out, expected);
    assert_eq!(tag, 3);
}

#[test]
fn data_only_frame_keeps_initial_tag() {
    let (out, tag) = demultiplex(&FRAME_TWO.to_vec(), 5);
    assert_eq!(out, frame_two_out(5));
    assert_eq!(tag, 5);
}

#[test]
fn feeding_in_parts_equals_feeding_at_once() {
    let mut d = Demultiplexer::new(0);
    assert_eq!(d.tag(), 0);
    let first = d.feed_words(&FRAME_ONE.to_vec());
    assert_eq!(d.tag(), 3);
    let second = d.feed_words(&FRAME_TWO.to_vec());
    let mut words = FRAME_ONE.to_vec();
    words.extend_from_slice(&FRAME_TWO);
    let (all, tag) = demultiplex(&words, 0);
    let mut joined = first;
    joined.extend(second);
    assert_eq!(joined, all);
    assert_eq!(d.tag(), tag);
}

#[test]
fn trailing_partial_frame_is_not_consumed() {
    let mut words = FRAME_ONE.to_vec();
    words.extend_from_slice(&[0x0102_0304, 0x0506_0708]);
    let (out, tag) = demultiplex(&words, 0);
    assert_eq!(out, frame_one_out());
    assert_eq!(tag, 3);
    assert_eq!(demultiplex(&vec![0x0102_0304], 9), (vec![], 9));
    assert_eq!(demultiplex(&vec![], 0), (vec![], 0));
}

#[test]
fn delayed_id_change_without_tag_difference() {
    // 03 AA ... with auxiliary bit 0 set, starting on tag 1: the following
    // byte stays on tag 1 either way.
    let words = vec![0x0000_AA03, 0x0000_0000, 0x0000_0000, 0x0100_0000];
    let (out, tag) = demultiplex(&words, 1);
    assert_eq!(out[0], tb(1, 0xAA));
    assert_eq!(out.len(), 14);
    assert!(out.iter().all(|b| b.tag == 1));
    assert_eq!(tag, 1);
}

#[test]
fn select_tag_keeps_one_source_in_order() {
    let pairs = vec![tb(1, 0x10), tb(0, 0x00), tb(2, 0x20), tb(1, 0x11), tb(1, 0x12), tb(3, 0x30)];
    assert_eq!(select_tag(&pairs, 1), (vec![0x10, 0x11, 0x12], 3));
    assert_eq!(select_tag(&pairs, 2), (vec![0x20], 5));
    assert_eq!(select_tag(&pairs, 7), (vec![], 6));
    assert_eq!(select_tag(&vec![], 1), (vec![], 0));
}
