//! The block sweeper, in line mode and in block-only mode.

use mmtk::address::Address;
use mmtk::block::{Block, BlockState, BLOCK_BYTES};
use mmtk::immix::ImmixSpace;

const START: usize = 16 * BLOCK_BYTES;
const EPOCH: u8 = 1;

/// A line-mode space of one block with twelve lines, marked as `pattern`
/// says (`true` = marked with the current epoch).
fn space_with_pattern(pattern: &[bool]) -> (ImmixSpace, Block) {
    let mut space = ImmixSpace::new(START, 1, pattern.len(), false, false);
    for (i, &marked) in pattern.iter().enumerate() {
        space.line_marks[i] = if marked { EPOCH } else { 0 };
    }
    let b = Block::from(Address(START));
    b.set_state(&mut space, BlockState::Unmarked);
    (space, b)
}

fn pattern(s: &str) -> Vec<bool> {
    s.chars().map(|c| c == 'M').collect()
}

#[test]
fn sweep_line_mode_partly_marked() {
    let (mut space, b) = space_with_pattern(&pattern("MMUUMMMUUUMM"));
    let mut histogram = vec![0usize; 12];
    let swept = b.sweep(&mut space, &mut histogram, Some(EPOCH));
    assert!(!swept);
    assert_eq!(b.get_state(&space), BlockState::Reusable { unavailable_lines: 7 });
    assert_eq!(b.get_holes(&space), 2);
    assert_eq!(space.reusable_blocks.len(), 1);
    assert_eq!(space.reusable_blocks.get_blocks(), vec![START]);
    assert_eq!(histogram[2], 7);
    let mut total = 0;
    for h in &histogram {
        total += h;
    }
    assert_eq!(total, 7);
}

#[test]
fn sweep_line_mode_all_unmarked() {
    let (mut space, b) = space_with_pattern(&pattern("UUUUUUUUUUUU"));
    let mut histogram = vec![0usize; 12];
    let swept = b.sweep(&mut space, &mut histogram, Some(EPOCH));
    assert!(swept);
    assert_eq!(b.get_state(&space), BlockState::Unallocated);
    assert_eq!(space.reusable_blocks.len(), 0);
    assert_eq!(histogram, vec![0usize; 12]);
}

#[test]
fn sweep_line_mode_all_marked() {
    let (mut space, b) = space_with_pattern(&pattern("MMMMMMMMMMMM"));
    let mut histogram = vec![0usize; 12];
    let swept = b.sweep(&mut space, &mut histogram, Some(EPOCH));
    assert!(!swept);
    assert_eq!(b.get_state(&space), BlockState::Unmarked);
    assert_eq!(b.get_holes(&space), 0);
    assert_eq!(space.reusable_blocks.len(), 0);
    assert_eq!(histogram[0], 12);
}

#[test]
fn sweep_line_mode_trailing_hole() {
    let (mut space, b) = space_with_pattern(&pattern("MUUMU"));
    let mut histogram = vec![0usize; 5];
    let swept = b.sweep(&mut space, &mut histogram, Some(EPOCH));
    assert!(!swept);
    assert_eq!(b.get_state(&space), BlockState::Reusable { unavailable_lines: 2 });
    assert_eq!(b.get_holes(&space), 2);
    assert_eq!(histogram[2], 2);
}

#[test]
fn sweep_block_only_unmarked_is_released() {
    let mut space = ImmixSpace::new(START, 2, 128, true, false);
    let b = Block::from(Address(START));
    b.set_state(&mut space, BlockState::Unmarked);
    let mut histogram = Vec::new();
    let swept = b.sweep(&mut space, &mut histogram, None);
    assert!(swept);
    assert_eq!(b.get_state(&space), BlockState::Unallocated);
}

#[test]
fn sweep_block_only_marked_and_unallocated_are_kept() {
    let mut space = ImmixSpace::new(START, 2, 128, true, false);
    let b0 = Block::from(Address(START));
    let b1 = Block::from(Address(START + BLOCK_BYTES));
    b1.set_state(&mut space, BlockState::Marked);
    let mut histogram = Vec::new();
    assert!(!b0.sweep(&mut space, &mut histogram, None));
    assert_eq!(b0.get_state(&space), BlockState::Unallocated);
    assert!(!b1.sweep(&mut space, &mut histogram, None));
    assert_eq!(b1.get_state(&space), BlockState::Marked);
}
