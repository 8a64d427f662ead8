//! The reusable-block queue: LIFO order under its lock.

use mmtk::address::Address;
use mmtk::block::{Block, BLOCK_BYTES};
use mmtk::block_list::BlockList;

fn block(i: usize) -> Block {
    Block::from(Address(i * BLOCK_BYTES))
}

#[test]
fn push_pop_is_lifo() {
    let mut list = BlockList::new();
    assert_eq!(list.len(), 0);
    list.push(block(1));
    list.push(block(2));
    list.push(block(3));
    assert_eq!(list.len(), 3);
    assert_eq!(list.pop().map(|b| b.start().0), Some(3 * BLOCK_BYTES));
    assert_eq!(list.pop().map(|b| b.start().0), Some(2 * BLOCK_BYTES));
    assert_eq!(list.pop().map(|b| b.start().0), Some(BLOCK_BYTES));
    assert_eq!(list.len(), 0);
    assert!(list.pop().is_none());
}

#[test]
fn reset_clears() {
    let mut list = BlockList::default();
    list.push(block(4));
    list.push(block(5));
    list.reset();
    assert_eq!(list.len(), 0);
    assert!(list.pop().is_none());
}

#[test]
fn get_blocks_snapshots_bottom_first() {
    let mut list = BlockList::new();
    list.push(block(7));
    list.push(block(9));
    assert_eq!(list.get_blocks(), vec![7 * BLOCK_BYTES, 9 * BLOCK_BYTES]);
    // The snapshot leaves the list untouched.
    assert_eq!(list.len(), 2);
}
