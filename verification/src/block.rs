//! Immix blocks: the 32 KiB unit of sweeping, with its one-byte state codec
//! and its side-metadata accessors.

use vstd::prelude::*;
use crate::address::{Address, ObjectReference};
use crate::chunk::Chunk;
use crate::immix::{ImmixSpace, marked_line_count, hole_count, prev_marked, lemma_counts_bounded};
use crate::line::{Line, LINE_BYTES};

verus! {

/// Log of the bytes in a block.
pub const BLOCK_LOG_BYTES: usize = 15;

/// Bytes in a block.
pub const BLOCK_BYTES: usize = 32768;

/// Log of the pages in a block.
pub const BLOCK_LOG_PAGES: usize = 3;

/// Pages in a block.
pub const BLOCK_PAGES: usize = 8;

/// Log of the lines in a block, in the conventional line geometry.
pub const BLOCK_LOG_LINES: usize = 7;

/// Lines in a block, in the conventional line geometry.
pub const BLOCK_LINES: usize = 128;

/// Byte encoding an unallocated block.
pub const MARK_UNALLOCATED: u8 = 0;

/// Byte encoding an allocated, unmarked block.
pub const MARK_UNMARKED: u8 = 255;

/// Byte encoding an allocated, marked block.
pub const MARK_MARKED: u8 = 254;

/// The block allocation state, as decoded from one side-metadata byte.
#[derive(Debug, PartialEq, Eq, Structural, Clone, Copy)]
pub enum BlockState {
    /// The block is not allocated.
    Unallocated,
    /// The block is allocated but not marked.
    Unmarked,
    /// The block is allocated and marked.
    Marked,
    /// The block is live with holes: `unavailable_lines` of its lines are
    /// still in use, the rest may be handed out again.
    Reusable { unavailable_lines: u8 },
}

/// The state encoded by one block-mark byte.
pub open spec fn block_state_of_byte(byte: u8) -> BlockState {
    if byte == MARK_UNALLOCATED {
        BlockState::Unallocated
    } else if byte == MARK_UNMARKED {
        BlockState::Unmarked
    } else if byte == MARK_MARKED {
        BlockState::Marked
    } else {
        BlockState::Reusable { unavailable_lines: byte }
    }
}

/// The byte that encodes a block state.
pub open spec fn byte_of_block_state(state: BlockState) -> u8 {
    match state {
        BlockState::Unallocated => MARK_UNALLOCATED,
        BlockState::Unmarked => MARK_UNMARKED,
        BlockState::Marked => MARK_MARKED,
        BlockState::Reusable { unavailable_lines } => unavailable_lines,
    }
}

/// A state the codec can encode without ambiguity: a `Reusable` payload must
/// stay clear of the three reserved bytes.
pub open spec fn legal_block_state(state: BlockState) -> bool {
    match state {
        BlockState::Reusable { unavailable_lines } => 1 <= unavailable_lines <= 253,
        _ => true,
    }
}

impl From<u8> for BlockState {
    /// Decode one block-mark byte.
    fn from(byte: u8) -> (r: Self) {
        if byte == MARK_UNALLOCATED {
            BlockState::Unallocated
        } else if byte == MARK_UNMARKED {
            BlockState::Unmarked
        } else if byte == MARK_MARKED {
            BlockState::Marked
        } else {
            BlockState::Reusable { unavailable_lines: byte }
        }
    }
}

impl vstd::std_specs::convert::FromSpecImpl<u8> for BlockState {
    open spec fn obeys_from_spec() -> bool {
        true
    }

    open spec fn from_spec(byte: u8) -> Self {
        block_state_of_byte(byte)
    }
}

impl From<BlockState> for u8 {
    /// Encode a block state as its block-mark byte.
    fn from(state: BlockState) -> (r: Self) {
        match state {
            BlockState::Unallocated => MARK_UNALLOCATED,
            BlockState::Unmarked => MARK_UNMARKED,
            BlockState::Marked => MARK_MARKED,
            BlockState::Reusable { unavailable_lines } => unavailable_lines,
        }
    }
}

impl vstd::std_specs::convert::FromSpecImpl<BlockState> for u8 {
    open spec fn obeys_from_spec() -> bool {
        true
    }

    open spec fn from_spec(state: BlockState) -> Self {
        byte_of_block_state(state)
    }
}

/// Decoding the byte of a legal state gives the state back.
pub proof fn lemma_block_state_roundtrip(state: BlockState)
    requires
        legal_block_state(state),
    ensures
        block_state_of_byte(byte_of_block_state(state)) == state,
{
}

/// Encoding the state of any byte gives the byte back: the codec loses
/// nothing in either direction.
pub proof fn lemma_block_byte_roundtrip(byte: u8)
    ensures
        byte_of_block_state(block_state_of_byte(byte)) == byte,
        legal_block_state(block_state_of_byte(byte)),
{
}

impl BlockState {
    /// Test if the block is reusable.
    pub fn is_reusable(&self) -> (r: bool)
        ensures
            r == (self matches BlockState::Reusable { .. }),
    {
        match self {
            BlockState::Reusable { .. } => true,
            _ => false,
        }
    }
}

/// A handle to one Immix block: a block-aligned address.
#[derive(Debug, Clone, Copy, PartialEq, Eq, Structural)]
pub struct Block(pub Address);

impl Block {
    /// A usable handle: block-aligned, with the whole block below the top of
    /// the address space.
    pub open spec fn wf(&self) -> bool {
        &&& self.0.0 % BLOCK_BYTES == 0
        &&& self.0.0 + BLOCK_BYTES <= usize::MAX
    }

    /// Align the address down to a block boundary.
    pub fn align(address: Address) -> (r: Address)
        ensures
            r.0 == address.0 - address.0 % BLOCK_BYTES,
            r.0 % BLOCK_BYTES == 0,
            r.0 <= address.0,
    {
        address.align_down(BLOCK_BYTES)
    }

    /// Get the block at a given address.  The address must be block-aligned.
    pub fn from(address: Address) -> (r: Self)
        requires
            address.0 % BLOCK_BYTES == 0,
            address.0 + BLOCK_BYTES <= usize::MAX,
        ensures
            r.0 == address,
            r.wf(),
    {
        Block(address)
    }

    /// Get the block containing the given object.  The object's address need
    /// not be aligned, but must lie below the last whole block.
    pub fn containing(object: ObjectReference) -> (r: Self)
        requires
            object.0 <= usize::MAX - BLOCK_BYTES,
        ensures
            r.0.0 == object.0 - object.0 % BLOCK_BYTES,
            r.wf(),
            r.0.0 <= object.0 < r.0.0 + BLOCK_BYTES,
    {
        let a = object.to_address().align_down(BLOCK_BYTES);
        Block(a)
    }

    /// Get the block start address.
    pub fn start(&self) -> (r: Address)
        ensures
            r == self.0,
    {
        self.0
    }

    /// Get the block end address.
    pub fn end(&self) -> (r: Address)
        requires
            self.wf(),
        ensures
            r.0 == self.0.0 + BLOCK_BYTES,
    {
        self.0.add(BLOCK_BYTES)
    }

    /// Get the chunk containing the block.
    pub fn chunk(&self) -> (r: Chunk)
        ensures
            r.0.0 == self.0.0 - self.0.0 % crate::chunk::CHUNK_BYTES,
    {
        Chunk(Chunk::align(self.0))
    }

    /// The number of blocks from `start` up to `end`, or `None` when `end`
    /// lies below `start`.
    pub fn steps_between(start: &Self, end: &Self) -> (r: Option<usize>)
        requires
            start.wf(),
            end.wf(),
        ensures
            match r {
                Some(n) => start.0.0 + n * BLOCK_BYTES == end.0.0,
                None => end.0.0 < start.0.0,
            },
    {
        if start.0.0 > end.0.0 {
            return None;
        }
        let diff = end.0.0 - start.0.0;
        let n = diff / BLOCK_BYTES;
        proof {
            vstd::arithmetic::div_mod::lemma_fundamental_div_mod(diff as int, BLOCK_BYTES as int);
            assert((diff as int) % (BLOCK_BYTES as int) == 0) by (nonlinear_arith)
                requires
                    diff == end.0.0 - start.0.0,
                    (start.0.0 as int) % (BLOCK_BYTES as int) == 0,
                    (end.0.0 as int) % (BLOCK_BYTES as int) == 0,
                    start.0.0 <= end.0.0,
                    BLOCK_BYTES == 32768,
            ;
            assert(start.0.0 + n * BLOCK_BYTES == end.0.0) by (nonlinear_arith)
                requires
                    diff as int == (BLOCK_BYTES as int) * (n as int) + (diff as int) % (BLOCK_BYTES as int),
                    (diff as int) % (BLOCK_BYTES as int) == 0,
                    diff == end.0.0 - start.0.0,
            ;
        }
        Some(n)
    }

    /// The block `count` blocks above this one.
    pub fn forward(start: Self, count: usize) -> (r: Self)
        requires
            start.wf(),
            start.0.0 + count * BLOCK_BYTES + BLOCK_BYTES <= usize::MAX,
        ensures
            r.0.0 == start.0.0 + count * BLOCK_BYTES,
            r.wf(),
    {
        proof {
            assert((start.0.0 + count * BLOCK_BYTES) % (BLOCK_BYTES as int) == 0) by (nonlinear_arith)
                requires
                    (start.0.0 as int) % (BLOCK_BYTES as int) == 0,
                    BLOCK_BYTES == 32768,
            ;
            assert(count * BLOCK_BYTES == (count as int) * (BLOCK_BYTES as int));
        }
        Block(Address(start.0.0 + count * BLOCK_BYTES))
    }

    /// The block `count` blocks above this one, or `None` on address-space
    /// overflow.
    pub fn forward_checked(start: Self, count: usize) -> (r: Option<Self>)
        requires
            start.wf(),
            count * BLOCK_BYTES <= usize::MAX,
        ensures
            match r {
                Some(b) => b.0.0 == start.0.0 + count * BLOCK_BYTES && b.wf(),
                None => start.0.0 + count * BLOCK_BYTES + BLOCK_BYTES > usize::MAX,
            },
    {
        let step = count * BLOCK_BYTES;
        if step > usize::MAX - BLOCK_BYTES || start.0.0 > usize::MAX - BLOCK_BYTES - step {
            return None;
        }
        Some(Self::forward(start, count))
    }

    /// The block `count` blocks below this one.
    pub fn backward(start: Self, count: usize) -> (r: Self)
        requires
            start.wf(),
            count * BLOCK_BYTES <= start.0.0,
        ensures
            r.0.0 == start.0.0 - count * BLOCK_BYTES,
            r.wf(),
    {
        proof {
            assert((start.0.0 - count * BLOCK_BYTES) % (BLOCK_BYTES as int) == 0) by (nonlinear_arith)
                requires
                    (start.0.0 as int) % (BLOCK_BYTES as int) == 0,
                    count * BLOCK_BYTES <= start.0.0,
                    BLOCK_BYTES == 32768,
            ;
        }
        Block(Address(start.0.0 - count * BLOCK_BYTES))
    }

    /// The block `count` blocks below this one, or `None` below address zero.
    pub fn backward_checked(start: Self, count: usize) -> (r: Option<Self>)
        requires
            start.wf(),
            count * BLOCK_BYTES <= usize::MAX,
        ensures
            match r {
                Some(b) => b.0.0 == start.0.0 - count * BLOCK_BYTES && b.wf(),
                None => start.0.0 < count * BLOCK_BYTES,
            },
    {
        let step = count * BLOCK_BYTES;
        if start.0.0 < step {
            return None;
        }
        Some(Self::backward(start, count))
    }
}

impl Block {
    /// Get the block mark state from the space's side metadata.
    pub fn get_state(&self, space: &ImmixSpace) -> (r: BlockState)
        requires
            space.wf(),
            space.contains_block(*self),
        ensures
            r == space.block_state_of(*self),
    {
        proof {
            space.lemma_block_index_facts(*self);
        }
        let byte = space.block_marks.load(self.0);
        BlockState::from(byte)
    }

    /// Set the block mark state in the space's side metadata.  Every other
    /// block keeps its state and its defrag byte.
    pub fn set_state(&self, space: &mut ImmixSpace, state: BlockState)
        requires
            old(space).wf(),
            old(space).contains_block(*self),
            legal_block_state(state),
            state matches BlockState::Reusable { unavailable_lines } ==> {
                &&& (unavailable_lines as int) < old(space).lines_per_block
                &&& !old(space).is_defrag_source_of(*self)
            },
        ensures
            final(space).wf(),
            final(space).block_only == old(space).block_only,
            final(space).defrag == old(space).defrag,
            final(space).start == old(space).start,
            final(space).num_blocks == old(space).num_blocks,
            final(space).lines_per_block == old(space).lines_per_block,
            final(space).defrag_state == old(space).defrag_state,
            final(space).line_marks == old(space).line_marks,
            final(space).reusable_blocks == old(space).reusable_blocks,
            final(space).block_marks.base == old(space).block_marks.base,
            final(space).block_marks.bytes_per_unit == old(space).block_marks.bytes_per_unit,
            final(space).block_marks.data@ == old(space).block_marks.data@.update(
                old(space).block_index(*self),
                byte_of_block_state(state),
            ),
            final(space).block_state_of(*self) == state,
            forall|b2: Block|
                old(space).contains_block(b2) && b2.0.0 != self.0.0 ==> {
                    &&& final(space).block_state_of(b2) == old(space).block_state_of(b2)
                    &&& final(space).defrag_byte_of(b2) == old(space).defrag_byte_of(b2)
                },
    {
        proof {
            space.lemma_block_index_facts(*self);
        }
        let byte = u8::from(state);
        space.block_marks.store(self.0, byte);
        proof {
            let idx = old(space).block_index(*self);
            lemma_block_state_roundtrip(state);
            assert forall|i: int|
                0 <= i < space.num_blocks implies space.legal_mark_byte(
                #[trigger] space.block_marks.data@[i],
            ) by {
                if i != idx {
                    assert(space.block_marks.data@[i] == old(space).block_marks.data@[i]);
                }
            }
            assert forall|i: int|
                0 <= i < space.num_blocks && !(space.block_marks.data@[i] == 0
                    || space.block_marks.data@[i] == 254 || space.block_marks.data@[i] == 255)
                implies #[trigger] space.defrag_state.data@[i] != 255u8 by {
                if i != idx {
                    assert(space.block_marks.data@[i] == old(space).block_marks.data@[i]);
                }
            }
            assert forall|b2: Block|
                old(space).contains_block(b2) && b2.0.0 != self.0.0 implies {
                &&& space.block_state_of(b2) == old(space).block_state_of(b2)
                &&& space.defrag_byte_of(b2) == old(space).defrag_byte_of(b2)
            } by {
                old(space).lemma_block_index_injective(b2, *self);
                old(space).lemma_block_index_facts(b2);
            }
        }
    }

    /// Test if the block is marked as a defragmentation source.
    pub fn is_defrag_source(&self, space: &ImmixSpace) -> (r: bool)
        requires
            space.wf(),
            space.contains_block(*self),
        ensures
            r == space.is_defrag_source_of(*self),
    {
        proof {
            space.lemma_block_index_facts(*self);
        }
        let byte = space.defrag_state.load(self.0);
        byte == crate::immix::DEFRAG_SOURCE_STATE
    }

    /// Mark or unmark the block as a defragmentation source.  A reusable
    /// block is never marked: the two readings of the shared byte must not
    /// overlap.
    pub fn set_as_defrag_source(&self, space: &mut ImmixSpace, defrag: bool)
        requires
            old(space).wf(),
            old(space).contains_block(*self),
            defrag ==> !(old(space).block_state_of(*self) matches BlockState::Reusable { .. }),
        ensures
            final(space).wf(),
            final(space).block_only == old(space).block_only,
            final(space).defrag == old(space).defrag,
            final(space).start == old(space).start,
            final(space).num_blocks == old(space).num_blocks,
            final(space).lines_per_block == old(space).lines_per_block,
            final(space).block_marks == old(space).block_marks,
            final(space).line_marks == old(space).line_marks,
            final(space).reusable_blocks == old(space).reusable_blocks,
            final(space).defrag_state.base == old(space).defrag_state.base,
            final(space).defrag_state.bytes_per_unit == old(space).defrag_state.bytes_per_unit,
            final(space).defrag_state.data@ == old(space).defrag_state.data@.update(
                old(space).block_index(*self),
                if defrag { 255u8 } else { 0u8 },
            ),
            final(space).is_defrag_source_of(*self) == defrag,
            forall|b2: Block|
                old(space).contains_block(b2) && b2.0.0 != self.0.0 ==> {
                    &&& final(space).block_state_of(b2) == old(space).block_state_of(b2)
                    &&& final(space).defrag_byte_of(b2) == old(space).defrag_byte_of(b2)
                },
    {
        proof {
            space.lemma_block_index_facts(*self);
        }
        let byte: u8 = if defrag {
            crate::immix::DEFRAG_SOURCE_STATE
        } else {
            0
        };
        space.defrag_state.store(self.0, byte);
        proof {
            let idx = old(space).block_index(*self);
            assert forall|i: int|
                0 <= i < space.num_blocks && !(space.block_marks.data@[i] == 0
                    || space.block_marks.data@[i] == 254 || space.block_marks.data@[i] == 255)
                implies #[trigger] space.defrag_state.data@[i] != 255u8 by {
                if i != idx {
                    assert(space.defrag_state.data@[i] == old(space).defrag_state.data@[i]);
                }
            }
            assert forall|b2: Block|
                old(space).contains_block(b2) && b2.0.0 != self.0.0 implies {
                &&& space.block_state_of(b2) == old(space).block_state_of(b2)
                &&& space.defrag_byte_of(b2) == old(space).defrag_byte_of(b2)
            } by {
                old(space).lemma_block_index_injective(b2, *self);
                old(space).lemma_block_index_facts(b2);
            }
        }
    }

    /// Record the number of holes found in the block by the last sweep.  The
    /// count shares its byte with the defrag sentinel, so it stays below 255.
    pub fn set_holes(&self, space: &mut ImmixSpace, holes: usize)
        requires
            old(space).wf(),
            old(space).contains_block(*self),
            holes <= 254,
        ensures
            final(space).wf(),
            final(space).block_only == old(space).block_only,
            final(space).defrag == old(space).defrag,
            final(space).start == old(space).start,
            final(space).num_blocks == old(space).num_blocks,
            final(space).lines_per_block == old(space).lines_per_block,
            final(space).block_marks == old(space).block_marks,
            final(space).line_marks == old(space).line_marks,
            final(space).reusable_blocks == old(space).reusable_blocks,
            final(space).defrag_state.base == old(space).defrag_state.base,
            final(space).defrag_state.bytes_per_unit == old(space).defrag_state.bytes_per_unit,
            final(space).defrag_state.data@ == old(space).defrag_state.data@.update(
                old(space).block_index(*self),
                holes as u8,
            ),
            final(space).defrag_byte_of(*self) == holes as u8,
            !final(space).is_defrag_source_of(*self),
            forall|b2: Block|
                old(space).contains_block(b2) && b2.0.0 != self.0.0 ==> {
                    &&& final(space).block_state_of(b2) == old(space).block_state_of(b2)
                    &&& final(space).defrag_byte_of(b2) == old(space).defrag_byte_of(b2)
                },
    {
        proof {
            space.lemma_block_index_facts(*self);
        }
        space.defrag_state.store(self.0, holes as u8);
        proof {
            let idx = old(space).block_index(*self);
            assert forall|i: int|
                0 <= i < space.num_blocks && !(space.block_marks.data@[i] == 0
                    || space.block_marks.data@[i] == 254 || space.block_marks.data@[i] == 255)
                implies #[trigger] space.defrag_state.data@[i] != 255u8 by {
                if i != idx {
                    assert(space.defrag_state.data@[i] == old(space).defrag_state.data@[i]);
                }
            }
            assert forall|b2: Block|
                old(space).contains_block(b2) && b2.0.0 != self.0.0 implies {
                &&& space.block_state_of(b2) == old(space).block_state_of(b2)
                &&& space.defrag_byte_of(b2) == old(space).defrag_byte_of(b2)
            } by {
                old(space).lemma_block_index_injective(b2, *self);
                old(space).lemma_block_index_facts(b2);
            }
        }
    }

    /// Get the number of holes recorded for the block.  The byte must not be
    /// holding the defrag sentinel: the two uses never overlap in time.
    pub fn get_holes(&self, space: &ImmixSpace) -> (r: usize)
        requires
            space.wf(),
            space.contains_block(*self),
            !space.is_defrag_source_of(*self),
        ensures
            r == space.defrag_byte_of(*self) as usize,
            r <= 254,
    {
        proof {
            space.lemma_block_index_facts(*self);
        }
        let byte = space.defrag_state.load(self.0);
        byte as usize
    }

    /// Initialize a clean block just acquired from the page resource: state
    /// `Marked` for a copy allocation, `Unmarked` for a mutator allocation,
    /// and a zeroed defrag byte.
    pub fn init(&self, space: &mut ImmixSpace, copy: bool)
        requires
            old(space).wf(),
            old(space).contains_block(*self),
        ensures
            final(space).wf(),
            final(space).block_only == old(space).block_only,
            final(space).defrag == old(space).defrag,
            final(space).start == old(space).start,
            final(space).num_blocks == old(space).num_blocks,
            final(space).lines_per_block == old(space).lines_per_block,
            final(space).line_marks == old(space).line_marks,
            final(space).reusable_blocks == old(space).reusable_blocks,
            final(space).block_state_of(*self) == if copy {
                BlockState::Marked
            } else {
                BlockState::Unmarked
            },
            final(space).defrag_byte_of(*self) == 0u8,
            !final(space).is_defrag_source_of(*self),
            forall|b2: Block|
                old(space).contains_block(b2) && b2.0.0 != self.0.0 ==> {
                    &&& final(space).block_state_of(b2) == old(space).block_state_of(b2)
                    &&& final(space).defrag_byte_of(b2) == old(space).defrag_byte_of(b2)
                },
    {
        self.set_state(
            space,
            if copy {
                BlockState::Marked
            } else {
                BlockState::Unmarked
            },
        );
        self.set_as_defrag_source(space, false);
    }

    /// Deinitialize a block before its pages go back to the page resource:
    /// the state returns to `Unallocated`.
    pub fn deinit(&self, space: &mut ImmixSpace)
        requires
            old(space).wf(),
            old(space).contains_block(*self),
        ensures
            final(space).wf(),
            final(space).block_only == old(space).block_only,
            final(space).defrag == old(space).defrag,
            final(space).start == old(space).start,
            final(space).num_blocks == old(space).num_blocks,
            final(space).lines_per_block == old(space).lines_per_block,
            final(space).defrag_state == old(space).defrag_state,
            final(space).line_marks == old(space).line_marks,
            final(space).reusable_blocks == old(space).reusable_blocks,
            final(space).block_marks.base == old(space).block_marks.base,
            final(space).block_marks.bytes_per_unit == old(space).block_marks.bytes_per_unit,
            final(space).block_marks.data@ == old(space).block_marks.data@.update(
                old(space).block_index(*self),
                0u8,
            ),
            final(space).block_state_of(*self) == BlockState::Unallocated,
            forall|b2: Block|
                old(space).contains_block(b2) && b2.0.0 != self.0.0 ==> {
                    &&& final(space).block_state_of(b2) == old(space).block_state_of(b2)
                    &&& final(space).defrag_byte_of(b2) == old(space).defrag_byte_of(b2)
                },
    {
        self.set_state(space, BlockState::Unallocated);
    }

    /// Copy out the mark bytes of the block's lines, in line order.
    pub fn line_mark_table(&self, space: &ImmixSpace) -> (r: Vec<u8>)
        requires
            space.wf(),
            space.contains_block(*self),
            !space.block_only,
        ensures
            r@ == space.line_bytes_of(*self),
    {
        proof {
            space.lemma_block_index_facts(*self);
        }
        let off = self.0.0 - space.start;
        let idx = off / BLOCK_BYTES;
        proof {
            assert(idx == space.block_index(*self));
            space.lemma_line_index_bounds(*self, 0);
            assert(space.num_blocks * space.lines_per_block <= usize::MAX) by (nonlinear_arith)
                requires
                    space.lines_per_block <= 254,
                    0 <= space.num_blocks,
                    space.num_blocks * 32768 <= usize::MAX,
            ;
            assert((idx as int) * (space.lines_per_block as int) < space.line_marks@.len());
        }
        let base = idx * space.lines_per_block;
        let mut r: Vec<u8> = Vec::new();
        let mut i: usize = 0;
        while i < space.lines_per_block
            invariant
                space.wf(),
                space.contains_block(*self),
                i <= space.lines_per_block,
                base == space.block_index(*self) * space.lines_per_block,
                r@.len() == i,
                forall|j: int| 0 <= j < i ==> r@[j] == space.line_bytes_of(*self)[j],
            decreases space.lines_per_block - i,
        {
            proof {
                space.lemma_line_index_bounds(*self, i as int);
                assert(space.num_blocks * space.lines_per_block <= usize::MAX) by (nonlinear_arith)
                    requires
                        space.lines_per_block <= 254,
                        0 <= space.num_blocks,
                        space.num_blocks * 32768 <= usize::MAX,
                ;
            }
            r.push(space.line_marks[base + i]);
            i = i + 1;
        }
        proof {
            assert(r@ =~= space.line_bytes_of(*self));
        }
        r
    }

    /// The block's lines in the conventional geometry: `BLOCK_LINES` lines
    /// of `LINE_BYTES` bytes, in address order.
    pub fn lines(&self) -> (r: Vec<Line>)
        requires
            self.wf(),
        ensures
            r@.len() == BLOCK_LINES,
            forall|i: int| 0 <= i < BLOCK_LINES ==> (#[trigger] r@[i]).0.0 == self.0.0 + i * LINE_BYTES,
    {
        let mut r: Vec<Line> = Vec::new();
        let mut i: usize = 0;
        while i < BLOCK_LINES
            invariant
                self.wf(),
                i <= BLOCK_LINES,
                r@.len() == i,
                forall|j: int| 0 <= j < i ==> (#[trigger] r@[j]).0.0 == self.0.0 + j * LINE_BYTES,
            decreases BLOCK_LINES - i,
        {
            proof {
                assert(i * LINE_BYTES < BLOCK_BYTES) by (nonlinear_arith)
                    requires
                        i < 128,
                        LINE_BYTES == 256,
                        BLOCK_BYTES == 32768,
                ;
            }
            r.push(Line(Address(self.0.0 + i * LINE_BYTES)));
            i = i + 1;
        }
        r
    }

    /// Sweep this block, classifying it from its marks.
    ///
    /// In block-only mode the block's own mark decides: an `Unmarked` block
    /// was not reached and is released.  In line mode the block's lines are
    /// scanned once against the current mark epoch, counting marked lines
    /// and holes (maximal runs of unmarked lines preceded by a marked line
    /// or the block start); a block with no marked line is released, one
    /// with some free lines becomes `Reusable` and joins the reusable
    /// queue, a full block returns to `Unmarked`; in both keeping branches
    /// the hole count is recorded in the block's defrag byte and
    /// `mark_histogram[holes]` grows by the number of marked lines.
    ///
    /// Returns true iff the block was swept (released).
    pub fn sweep(
        &self,
        space: &mut ImmixSpace,
        mark_histogram: &mut Vec<usize>,
        line_mark_state: Option<u8>,
    ) -> (swept: bool)
        requires
            old(space).wf(),
            old(space).contains_block(*self),
            old(space).block_only ==> !(old(space).block_state_of(*self) matches
                BlockState::Reusable { .. }),
            !old(space).block_only ==> line_mark_state is Some,
            !old(space).block_only ==> old(mark_histogram)@.len() == old(space).lines_per_block,
            !old(space).block_only ==> forall|i: int|
                0 <= i < old(mark_histogram)@.len() ==> (#[trigger] old(mark_histogram)@[i])
                    + old(space).lines_per_block <= usize::MAX,
        ensures
            final(space).wf(),
            final(space).block_only == old(space).block_only,
            final(space).defrag == old(space).defrag,
            final(space).start == old(space).start,
            final(space).num_blocks == old(space).num_blocks,
            final(space).lines_per_block == old(space).lines_per_block,
            final(space).line_marks == old(space).line_marks,
            forall|b2: Block|
                old(space).contains_block(b2) && b2.0.0 != self.0.0 ==> {
                    &&& final(space).block_state_of(b2) == old(space).block_state_of(b2)
                    &&& final(space).defrag_byte_of(b2) == old(space).defrag_byte_of(b2)
                },
            old(space).block_only ==> {
                &&& final(mark_histogram)@ == old(mark_histogram)@
                &&& final(space).reusable_blocks == old(space).reusable_blocks
                &&& final(space).defrag_state == old(space).defrag_state
                &&& match old(space).block_state_of(*self) {
                    BlockState::Unallocated => !swept && final(space).block_marks == old(
                        space,
                    ).block_marks,
                    BlockState::Unmarked => swept && final(space).block_state_of(*self)
                        == BlockState::Unallocated,
                    BlockState::Marked => !swept && final(space).block_marks == old(
                        space,
                    ).block_marks,
                    BlockState::Reusable { .. } => true,
                }
            },
            !old(space).block_only ==> (line_mark_state matches Some(epoch) ==> {
                let s = old(space).line_bytes_of(*self);
                let ml = marked_line_count(s, epoch);
                let h = hole_count(s, epoch);
                &&& (ml == 0 ==> {
                    &&& swept
                    &&& final(space).block_state_of(*self) == BlockState::Unallocated
                    &&& final(space).defrag_state == old(space).defrag_state
                    &&& final(space).reusable_blocks == old(space).reusable_blocks
                    &&& final(mark_histogram)@ == old(mark_histogram)@
                })
                &&& (ml > 0 ==> {
                    &&& !swept
                    &&& final(space).defrag_byte_of(*self) as int == h
                    &&& !final(space).is_defrag_source_of(*self)
                    &&& final(mark_histogram)@ == old(mark_histogram)@.update(
                        h,
                        (old(mark_histogram)@[h] + ml) as usize,
                    )
                })
                &&& (0 < ml < old(space).lines_per_block ==> {
                    &&& final(space).block_state_of(*self) == (BlockState::Reusable {
                        unavailable_lines: ml as u8,
                    })
                    &&& final(space).reusable_blocks.view() == old(
                        space,
                    ).reusable_blocks.view().push(self.0.0)
                })
                &&& (ml == old(space).lines_per_block ==> {
                    &&& final(space).block_state_of(*self) == BlockState::Unmarked
                    &&& final(space).reusable_blocks == old(space).reusable_blocks
                })
            }),
    {
        if space.block_only {
            let state = self.get_state(space);
            match state {
                BlockState::Unallocated => false,
                BlockState::Unmarked => {
                    // The block is allocated but was not marked by the
                    // current collection: release it.
                    space.release_block(*self);
                    true
                },
                BlockState::Marked => false,
                BlockState::Reusable { .. } => {
                    proof {
                        assert(false);
                    }
                    false
                },
            }
        } else {
            let epoch: u8 = match line_mark_state {
                Some(e) => e,
                None => {
                    proof {
                        assert(false);
                    }
                    0
                },
            };
            proof {
                space.lemma_block_index_facts(*self);
                space.lemma_line_index_bounds(*self, 0);
                assert(space.num_blocks * space.lines_per_block <= usize::MAX) by (nonlinear_arith)
                    requires
                        space.lines_per_block <= 254,
                        0 <= space.num_blocks,
                        space.num_blocks * 32768 <= usize::MAX,
                ;
            }
            let off = self.0.0 - space.start;
            let idx = off / BLOCK_BYTES;
            proof {
                assert(idx == space.block_index(*self));
                assert((idx as int) * (space.lines_per_block as int) < space.line_marks@.len());
            }
            let base = idx * space.lines_per_block;
            let ghost s = space.line_bytes_of(*self);
            let mut marked_lines: usize = 0;
            let mut holes: usize = 0;
            let mut prev_line_is_marked: bool = true;
            let mut i: usize = 0;
            while i < space.lines_per_block
                invariant
                    *space == *old(space),
                    mark_histogram@ == old(mark_histogram)@,
                    space.wf(),
                    space.contains_block(*self),
                    s == space.line_bytes_of(*self),
                    base == space.block_index(*self) * space.lines_per_block,
                    i <= space.lines_per_block,
                    marked_lines as int == marked_line_count(s.take(i as int), epoch),
                    holes as int == hole_count(s.take(i as int), epoch),
                    prev_line_is_marked == prev_marked(s.take(i as int), epoch),
                    marked_lines <= i,
                    holes <= i,
                decreases space.lines_per_block - i,
            {
                proof {
                    space.lemma_line_index_bounds(*self, i as int);
                    assert(space.num_blocks * space.lines_per_block <= usize::MAX)
                        by (nonlinear_arith)
                        requires
                            space.lines_per_block <= 254,
                            0 <= space.num_blocks,
                            space.num_blocks * 32768 <= usize::MAX,
                    ;
                }
                let byte = space.line_marks[base + i];
                proof {
                    assert(byte == s[i as int]);
                    assert(s.take(i as int + 1).drop_last() =~= s.take(i as int));
                    assert(s.take(i as int + 1).last() == s[i as int]);
                }
                if byte == epoch {
                    marked_lines = marked_lines + 1;
                    prev_line_is_marked = true;
                } else {
                    if prev_line_is_marked {
                        holes = holes + 1;
                    }
                    prev_line_is_marked = false;
                }
                i = i + 1;
            }
            proof {
                assert(s.take(space.lines_per_block as int) =~= s);
                lemma_counts_bounded(s, epoch);
            }
            if marked_lines == 0 {
                // No line of the block is marked: release it.
                space.release_block(*self);
                true
            } else {
                // Some lines are live: keep the block, record its holes.
                self.set_holes(space, holes);
                if marked_lines != space.lines_per_block {
                    // There are free lines: the block can serve further
                    // allocation.
                    self.set_state(
                        space,
                        BlockState::Reusable { unavailable_lines: marked_lines as u8 },
                    );
                    space.reusable_blocks.push(*self);
                } else {
                    // The block is full: clear its mark for the next cycle.
                    self.set_state(space, BlockState::Unmarked);
                }
                proof {
                    assert forall|b2: Block|
                        old(space).contains_block(b2) && b2.0.0 != self.0.0 implies {
                        &&& space.block_state_of(b2) == old(space).block_state_of(b2)
                        &&& space.defrag_byte_of(b2) == old(space).defrag_byte_of(b2)
                    } by {
                        old(space).lemma_block_index_injective(b2, *self);
                        old(space).lemma_block_index_facts(b2);
                    }
                }
                let cur = mark_histogram[holes];
                mark_histogram[holes] = cur + marked_lines;
                false
            }
        }
    }
}

} // verus!
