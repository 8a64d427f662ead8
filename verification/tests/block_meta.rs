//! Block handles and their side-metadata accessors.

use mmtk::address::{Address, ObjectReference};
use mmtk::block::{Block, BlockState, BLOCK_BYTES, BLOCK_LINES};
use mmtk::chunk::CHUNK_BYTES;
use mmtk::immix::ImmixSpace;
use mmtk::line::LINE_BYTES;

const START: usize = 8 * BLOCK_BYTES;

fn line_space() -> ImmixSpace {
    ImmixSpace::new(START, 4, 128, false, false)
}

#[test]
fn align_and_containing() {
    let a = Address(START + 12345);
    assert_eq!(Block::align(a).0, START);
    let b = Block::containing(ObjectReference(START + BLOCK_BYTES + 17));
    assert_eq!(b.start().0, START + BLOCK_BYTES);
    assert_eq!(b.end().0, START + 2 * BLOCK_BYTES);
}

#[test]
fn chunk_of_block() {
    let b = Block::from(Address(CHUNK_BYTES + 3 * BLOCK_BYTES));
    assert_eq!(b.chunk().start().0, CHUNK_BYTES);
}

#[test]
fn block_arithmetic() {
    let b0 = Block::from(Address(START));
    let b3 = Block::forward(b0, 3);
    assert_eq!(b3.start().0, START + 3 * BLOCK_BYTES);
    assert_eq!(Block::steps_between(&b0, &b3), Some(3));
    assert_eq!(Block::steps_between(&b3, &b0), None);
    assert_eq!(Block::backward(b3, 2).start().0, START + BLOCK_BYTES);
    assert_eq!(Block::forward_checked(b0, 1).map(|b| b.start().0), Some(START + BLOCK_BYTES));
    assert!(Block::backward_checked(b0, 9).is_none());
}

#[test]
fn state_roundtrip_through_metadata() {
    let mut space = line_space();
    let b = Block::from(Address(START + BLOCK_BYTES));
    assert_eq!(b.get_state(&space), BlockState::Unallocated);
    b.set_state(&mut space, BlockState::Marked);
    assert_eq!(b.get_state(&space), BlockState::Marked);
    b.set_state(&mut space, BlockState::Reusable { unavailable_lines: 42 });
    assert_eq!(b.get_state(&space), BlockState::Reusable { unavailable_lines: 42 });
    // The neighbours keep their state.
    let b0 = Block::from(Address(START));
    assert_eq!(b0.get_state(&space), BlockState::Unallocated);
}

#[test]
fn holes_roundtrip() {
    let mut space = line_space();
    let b = Block::from(Address(START));
    for n in [0usize, 1, 64, 127, 254] {
        b.set_holes(&mut space, n);
        assert!(!b.is_defrag_source(&space));
        assert_eq!(b.get_holes(&space), n);
    }
}

#[test]
fn defrag_source_roundtrip() {
    let mut space = line_space();
    let b = Block::from(Address(START + 2 * BLOCK_BYTES));
    b.set_as_defrag_source(&mut space, true);
    assert!(b.is_defrag_source(&space));
    b.set_as_defrag_source(&mut space, false);
    assert!(!b.is_defrag_source(&space));
}

#[test]
fn init_and_deinit() {
    let mut space = line_space();
    let b = Block::from(Address(START));
    b.init(&mut space, false);
    assert_eq!(b.get_state(&space), BlockState::Unmarked);
    assert_eq!(b.get_holes(&space), 0);
    b.init(&mut space, true);
    assert_eq!(b.get_state(&space), BlockState::Marked);
    b.deinit(&mut space);
    assert_eq!(b.get_state(&space), BlockState::Unallocated);
}

#[test]
fn lines_and_line_mark_table() {
    let mut space = line_space();
    let b = Block::from(Address(START));
    let lines = b.lines();
    assert_eq!(lines.len(), BLOCK_LINES);
    assert_eq!(lines[0].start().0, START);
    assert_eq!(lines[1].start().0, START + LINE_BYTES);
    assert_eq!(lines[127].start().0, START + 127 * LINE_BYTES);
    space.line_marks[0] = 9;
    space.line_marks[127] = 9;
    let marks = b.line_mark_table(&space);
    assert_eq!(marks.len(), 128);
    assert_eq!(marks[0], 9);
    assert_eq!(marks[1], 0);
    assert_eq!(marks[127], 9);
}

#[test]
fn validate_features() {
    assert!(ImmixSpace::new(START, 1, 128, false, true).validate_features());
    assert!(ImmixSpace::new(START, 1, 128, true, false).validate_features());
    assert!(ImmixSpace::new(START, 1, 128, false, false).validate_features());
}
