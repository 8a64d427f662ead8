//! The Immix space model: the side-metadata tables that classify each block,
//! the per-line mark bytes, and the queue of reusable blocks.
//!
//! Policy switches that the build of the collector fixes (`block_only`:
//! no line marks; `defrag`: opportunistic copying) are configuration
//! carried by the space, so that either mode can be exercised.

use vstd::prelude::*;
use crate::block::{Block, BlockState, block_state_of_byte, legal_block_state, BLOCK_BYTES};
use crate::block_list::BlockList;
use crate::side_metadata::MetadataTable;

verus! {

/// Byte in the defrag-state table that marks a block as a defrag source;
/// every other value of that byte records a hole count.
pub const DEFRAG_SOURCE_STATE: u8 = 255;

/// The number of lines whose stored mark byte equals the current epoch.
pub open spec fn marked_line_count(s: Seq<u8>, epoch: u8) -> int
    decreases s.len(),
{
    if s.len() == 0 {
        0
    } else {
        marked_line_count(s.drop_last(), epoch) + if s.last() == epoch {
            1int
        } else {
            0int
        }
    }
}

/// True iff a scan that has consumed `s` stands after a marked line or at
/// the start of the block.
pub open spec fn prev_marked(s: Seq<u8>, epoch: u8) -> bool {
    s.len() == 0 || s.last() == epoch
}

/// The number of maximal runs of unmarked lines that are preceded by a
/// marked line or by the start of the block: the holes of the block.
pub open spec fn hole_count(s: Seq<u8>, epoch: u8) -> int
    decreases s.len(),
{
    if s.len() == 0 {
        0
    } else {
        hole_count(s.drop_last(), epoch) + if s.last() != epoch && prev_marked(
            s.drop_last(),
            epoch,
        ) {
            1int
        } else {
            0int
        }
    }
}

/// Each line adds one to the marked-line count or at most one to the hole
/// count, never both.
pub proof fn lemma_counts_bounded(s: Seq<u8>, epoch: u8)
    ensures
        0 <= marked_line_count(s, epoch),
        0 <= hole_count(s, epoch),
        marked_line_count(s, epoch) + hole_count(s, epoch) <= s.len(),
    decreases s.len(),
{
    if s.len() > 0 {
        lemma_counts_bounded(s.drop_last(), epoch);
    }
}

/// The Immix space: block and line side metadata plus the reusable-block
/// queue, over a contiguous range of `num_blocks` blocks from `start`.
pub struct ImmixSpace {
    /// Mark and sweep at block granularity only, with no line marks.
    pub block_only: bool,
    /// Opportunistic copying is enabled; requires line marks.
    pub defrag: bool,
    /// First address of the space; block-aligned.
    pub start: usize,
    /// Number of blocks in the space.
    pub num_blocks: usize,
    /// Lines per block in this space's line geometry.
    pub lines_per_block: usize,
    /// One state byte per block.
    pub block_marks: MetadataTable,
    /// One byte per block: the defrag sentinel or a hole count.
    pub defrag_state: MetadataTable,
    /// One mark byte per line, grouped by block.
    pub line_marks: Vec<u8>,
    /// The queue of reusable blocks refilled by sweeping.
    pub reusable_blocks: BlockList,
}

impl ImmixSpace {
    /// The index of a block inside the space's tables.
    pub open spec fn block_index(&self, b: Block) -> int {
        (b.0.0 - self.start) / (BLOCK_BYTES as int)
    }

    /// True iff the block lies inside the space.
    pub open spec fn contains_block(&self, b: Block) -> bool {
        &&& b.wf()
        &&& self.start <= b.0.0
        &&& b.0.0 < self.start + self.num_blocks * BLOCK_BYTES
    }

    /// The state byte of a block.
    pub open spec fn block_mark_byte(&self, b: Block) -> u8 {
        self.block_marks.data@[self.block_index(b)]
    }

    /// The decoded state of a block.
    pub open spec fn block_state_of(&self, b: Block) -> BlockState {
        block_state_of_byte(self.block_mark_byte(b))
    }

    /// The defrag-state byte of a block.
    pub open spec fn defrag_byte_of(&self, b: Block) -> u8 {
        self.defrag_state.data@[self.block_index(b)]
    }

    /// True iff the block is marked as a defrag source.
    pub open spec fn is_defrag_source_of(&self, b: Block) -> bool {
        self.defrag_byte_of(b) == DEFRAG_SOURCE_STATE
    }

    /// The mark bytes of the block's lines, in line order.
    pub open spec fn line_bytes_of(&self, b: Block) -> Seq<u8> {
        Seq::new(
            self.lines_per_block as nat,
            |i: int| self.line_marks@[self.block_index(b) * self.lines_per_block + i],
        )
    }

    /// A state byte the space may hold: one of the three reserved bytes, or
    /// a reusable count below the number of lines in a block.
    pub open spec fn legal_mark_byte(&self, byte: u8) -> bool {
        byte == 0 || byte == 254 || byte == 255 || (1 <= byte && (byte as int) < self.lines_per_block)
    }

    /// Well-formedness of the space: coherent geometry, legal stored states,
    /// and no block both reusable and a defrag source.
    pub open spec fn wf(&self) -> bool {
        &&& 1 <= self.lines_per_block <= 254
        &&& (self.defrag ==> !self.block_only)
        &&& self.start % BLOCK_BYTES == 0
        &&& self.start + self.num_blocks * BLOCK_BYTES <= usize::MAX
        &&& self.block_marks.base == self.start
        &&& self.block_marks.bytes_per_unit == BLOCK_BYTES
        &&& self.block_marks.data@.len() == self.num_blocks
        &&& self.defrag_state.base == self.start
        &&& self.defrag_state.bytes_per_unit == BLOCK_BYTES
        &&& self.defrag_state.data@.len() == self.num_blocks
        &&& self.line_marks@.len() == self.num_blocks * self.lines_per_block
        &&& self.reusable_blocks.inv()
        &&& forall|i: int|
            0 <= i < self.num_blocks ==> self.legal_mark_byte(#[trigger] self.block_marks.data@[i])
        &&& forall|i: int|
            0 <= i < self.num_blocks && !(self.block_marks.data@[i] == 0
                || self.block_marks.data@[i] == 254 || self.block_marks.data@[i] == 255)
                ==> #[trigger] self.defrag_state.data@[i] != DEFRAG_SOURCE_STATE
    }

    /// A block of the space sits at a whole block index, and the index maps
    /// back to its address.
    pub proof fn lemma_block_index_facts(&self, b: Block)
        requires
            self.wf(),
            self.contains_block(b),
        ensures
            0 <= self.block_index(b) < self.num_blocks,
            self.start + self.block_index(b) * BLOCK_BYTES == b.0.0,
            ((b.0.0 - self.start) as int) % (BLOCK_BYTES as int) == 0,
            self.block_marks.covers(b.0.0),
            self.defrag_state.covers(b.0.0),
            self.block_marks.index_of(b.0.0) == self.block_index(b),
            self.defrag_state.index_of(b.0.0) == self.block_index(b),
    {
        let bb = BLOCK_BYTES as int;
        let off = b.0.0 - self.start;
        assert(off % bb == 0) by (nonlinear_arith)
            requires
                (b.0.0 as int) % bb == 0,
                (self.start as int) % bb == 0,
                self.start <= b.0.0,
                off == b.0.0 - self.start,
                bb == 32768,
        ;
        vstd::arithmetic::div_mod::lemma_fundamental_div_mod(off, bb);
        assert(0 <= off / bb < self.num_blocks && bb * (off / bb) == off) by (nonlinear_arith)
            requires
                bb >= 1,
                0 <= off,
                off < self.num_blocks * bb,
                off % bb == 0,
                off == bb * (off / bb) + off % bb,
        ;
    }

    /// Every block of a well-formed space is in a legal state:
    /// `Unallocated`, `Unmarked`, `Marked`, or `Reusable` with an
    /// unavailable-line count between 1 and one below the lines of a block
    /// (127 in the conventional 128-line geometry).  Each mutator of the
    /// metadata preserves well-formedness, so this holds at every cycle
    /// boundary.
    pub proof fn lemma_block_state_legal(&self, b: Block)
        requires
            self.wf(),
            self.contains_block(b),
        ensures
            match self.block_state_of(b) {
                BlockState::Reusable { unavailable_lines } => 1 <= unavailable_lines
                    && (unavailable_lines as int) < self.lines_per_block,
                _ => true,
            },
            legal_block_state(self.block_state_of(b)),
    {
        self.lemma_block_index_facts(b);
    }

    /// Distinct blocks of the space use distinct table indices.
    pub proof fn lemma_block_index_injective(&self, b1: Block, b2: Block)
        requires
            self.wf(),
            self.contains_block(b1),
            self.contains_block(b2),
            b1.0.0 != b2.0.0,
        ensures
            self.block_index(b1) != self.block_index(b2),
    {
        self.lemma_block_index_facts(b1);
        self.lemma_block_index_facts(b2);
    }

    /// A line index of a block of the space stays inside the line table.
    pub proof fn lemma_line_index_bounds(&self, b: Block, i: int)
        requires
            self.wf(),
            self.contains_block(b),
            0 <= i < self.lines_per_block,
        ensures
            0 <= self.block_index(b) * self.lines_per_block + i < self.line_marks@.len(),
    {
        self.lemma_block_index_facts(b);
        let idx = self.block_index(b);
        let lpb = self.lines_per_block as int;
        assert(0 <= idx * lpb + i < self.num_blocks * lpb) by (nonlinear_arith)
            requires
                0 <= idx < self.num_blocks,
                0 <= i < lpb,
                1 <= lpb,
        ;
    }

    /// Make a space of `num_blocks` blocks starting at `start`, with every
    /// block `Unallocated`, no defrag marks, no line marks, and an empty
    /// reusable-block queue.
    pub fn new(
        start: usize,
        num_blocks: usize,
        lines_per_block: usize,
        block_only: bool,
        defrag: bool,
    ) -> (r: ImmixSpace)
        requires
            start % BLOCK_BYTES == 0,
            start + num_blocks * BLOCK_BYTES <= usize::MAX,
            1 <= lines_per_block <= 254,
            defrag ==> !block_only,
        ensures
            r.wf(),
            r.block_only == block_only,
            r.defrag == defrag,
            r.start == start,
            r.num_blocks == num_blocks,
            r.lines_per_block == lines_per_block,
            forall|i: int| 0 <= i < num_blocks ==> r.block_marks.data@[i] == 0u8,
            forall|i: int| 0 <= i < num_blocks ==> r.defrag_state.data@[i] == 0u8,
            r.reusable_blocks.view() == Seq::<usize>::empty(),
    {
        proof {
            assert(num_blocks * lines_per_block <= num_blocks * BLOCK_BYTES) by (nonlinear_arith)
                requires
                    lines_per_block <= 254,
                    0 <= num_blocks,
                    BLOCK_BYTES == 32768,
            ;
        }
        let block_marks = MetadataTable::new_zeroed(start, BLOCK_BYTES, num_blocks);
        let defrag_state = MetadataTable::new_zeroed(start, BLOCK_BYTES, num_blocks);
        let units = num_blocks * lines_per_block;
        let mut line_marks: Vec<u8> = Vec::new();
        let mut i: usize = 0;
        while i < units
            invariant
                i <= units,
                line_marks@.len() == i,
            decreases units - i,
        {
            line_marks.push(0u8);
            i = i + 1;
        }
        ImmixSpace {
            block_only,
            defrag,
            start,
            num_blocks,
            lines_per_block,
            block_marks,
            defrag_state,
            line_marks,
            reusable_blocks: BlockList::new(),
        }
    }

    /// The feature switches are coherent: defragmentation needs line marks.
    pub fn validate_features(&self) -> (r: bool)
        ensures
            r == (self.defrag ==> !self.block_only),
    {
        !self.defrag || !self.block_only
    }

    /// Release a dead block: its state returns to `Unallocated` before the
    /// page resource of the host runtime takes its pages back.
    pub fn release_block(&mut self, block: Block)
        requires
            old(self).wf(),
            old(self).contains_block(block),
        ensures
            final(self).wf(),
            final(self).block_only == old(self).block_only,
            final(self).defrag == old(self).defrag,
            final(self).start == old(self).start,
            final(self).num_blocks == old(self).num_blocks,
            final(self).lines_per_block == old(self).lines_per_block,
            final(self).defrag_state == old(self).defrag_state,
            final(self).line_marks == old(self).line_marks,
            final(self).reusable_blocks == old(self).reusable_blocks,
            final(self).block_marks.base == old(self).block_marks.base,
            final(self).block_marks.bytes_per_unit == old(self).block_marks.bytes_per_unit,
            final(self).block_marks.data@ == old(self).block_marks.data@.update(
                old(self).block_index(block),
                0u8,
            ),
            final(self).block_state_of(block) == BlockState::Unallocated,
            forall|b2: Block|
                old(self).contains_block(b2) && b2.0.0 != block.0.0 ==> {
                    &&& final(self).block_state_of(b2) == old(self).block_state_of(b2)
                    &&& final(self).defrag_byte_of(b2) == old(self).defrag_byte_of(b2)
                },
    {
        block.deinit(self);
    }
}

} // verus!
