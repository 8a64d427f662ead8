//! The queue of reusable blocks: a lock-protected LIFO stack.
//!
//! Sweepers push newly reusable blocks while allocators later pop them; a
//! spin lock makes push and pop mutually exclusive.  The lock and the
//! vector behind it are outside code, so the queue's contents are named by
//! an uninterpreted view and each lock-and-operate step is a trusted
//! wrapper whose contract states what `spin`'s and `Vec`'s sources show.

use vstd::prelude::*;
use crate::address::Address;
use crate::block::{Block, BLOCK_BYTES};

verus! {

#[verifier::external_type_specification]
#[verifier::external_body]
#[verifier::reject_recursive_types(T)]
#[verifier::reject_recursive_types(R)]
pub struct ExSpinMutex<T: ?Sized, R>(spin::mutex::Mutex<T, R>);

#[verifier::external_type_specification]
#[verifier::external_body]
pub struct ExSpinRelax(spin::relax::Spin);

/// The stack of block start addresses a lock-protected queue holds, bottom
/// first.
pub uninterp spec fn queue_contents(m: spin::Mutex<Vec<usize>>) -> Seq<usize>;

/// Relies on `spin::Mutex::new`: the new lock wraps exactly the supplied
/// value, here an empty vector.
#[verifier::external_body]
fn queue_new() -> (m: spin::Mutex<Vec<usize>>)
    ensures
        queue_contents(m) == Seq::<usize>::empty(),
{
    spin::Mutex::new(Vec::new())
}

/// Relies on `spin::Mutex::lock` for exclusive access to the vector and on
/// `Vec::push`, which appends one element at the end.
#[verifier::external_body]
fn queue_push(m: &mut spin::Mutex<Vec<usize>>, value: usize)
    ensures
        queue_contents(*final(m)) == queue_contents(*old(m)).push(value),
{
    m.lock().push(value);
}

/// Relies on `spin::Mutex::lock` and on `Vec::pop`, which removes and
/// returns the last element, or returns `None` from an empty vector.
#[verifier::external_body]
fn queue_pop(m: &mut spin::Mutex<Vec<usize>>) -> (r: Option<usize>)
    ensures
        queue_contents(*old(m)).len() == 0 ==> {
            &&& r is None
            &&& queue_contents(*final(m)) == queue_contents(*old(m))
        },
        queue_contents(*old(m)).len() > 0 ==> {
            &&& r == Some(queue_contents(*old(m)).last())
            &&& queue_contents(*final(m)) == queue_contents(*old(m)).drop_last()
        },
{
    m.lock().pop()
}

/// Relies on `spin::Mutex::lock` and on `Vec::len`.
#[verifier::external_body]
fn queue_len(m: &spin::Mutex<Vec<usize>>) -> (r: usize)
    ensures
        r == queue_contents(*m).len(),
{
    m.lock().len()
}

/// Relies on `spin::Mutex::lock`: assigning through the guard replaces the
/// vector, here with an empty one.
#[verifier::external_body]
fn queue_reset(m: &mut spin::Mutex<Vec<usize>>)
    ensures
        queue_contents(*final(m)) == Seq::<usize>::empty(),
{
    *m.lock() = Vec::new();
}

/// Relies on `spin::Mutex::lock` and on `Vec::clone`, which copies the
/// elements in order.
#[verifier::external_body]
fn queue_snapshot(m: &spin::Mutex<Vec<usize>>) -> (r: Vec<usize>)
    ensures
        r@ == queue_contents(*m),
{
    m.lock().clone()
}

/// A lock-protected LIFO stack of blocks.
pub struct BlockList {
    queue: spin::Mutex<Vec<usize>>,
}

impl BlockList {
    /// The block start addresses in the list, bottom of the stack first.
    pub closed spec fn view(&self) -> Seq<usize> {
        queue_contents(self.queue)
    }

    /// Every stored address is the start of a well-formed block.
    pub open spec fn inv(&self) -> bool {
        forall|i: int| 0 <= i < self.view().len() ==> {
            &&& (#[trigger] self.view()[i]) % BLOCK_BYTES == 0
            &&& self.view()[i] + BLOCK_BYTES <= usize::MAX
        }
    }

    /// Make an empty list.
    pub fn new() -> (r: BlockList)
        ensures
            r.view() == Seq::<usize>::empty(),
            r.inv(),
    {
        BlockList { queue: queue_new() }
    }

    /// Get the number of blocks in this list.
    pub fn len(&self) -> (r: usize)
        ensures
            r == self.view().len(),
    {
        queue_len(&self.queue)
    }

    /// Add a block on top of the stack.
    pub fn push(&mut self, block: Block)
        requires
            block.wf(),
            old(self).inv(),
        ensures
            final(self).view() == old(self).view().push(block.0.0),
            final(self).inv(),
    {
        queue_push(&mut self.queue, block.0.0);
        proof {
            let v = self.view();
            assert forall|i: int| 0 <= i < v.len() implies
                (#[trigger] v[i]) % BLOCK_BYTES == 0 && v[i] + BLOCK_BYTES <= usize::MAX
            by {
                if i < old(self).view().len() {
                    assert(v[i] == old(self).view()[i]);
                } else {
                    assert(v[i] == block.0.0);
                }
            }
        }
    }

    /// Take the block on top of the stack, if any.
    pub fn pop(&mut self) -> (r: Option<Block>)
        requires
            old(self).inv(),
        ensures
            old(self).view().len() == 0 ==> {
                &&& r is None
                &&& final(self).view() == old(self).view()
            },
            old(self).view().len() > 0 ==> {
                &&& r matches Some(b) && b.0.0 == old(self).view().last() && b.wf()
                &&& final(self).view() == old(self).view().drop_last()
            },
            final(self).inv(),
    {
        match queue_pop(&mut self.queue) {
            None => None,
            Some(addr) => Some(Block(Address(addr))),
        }
    }

    /// Clear the list.
    pub fn reset(&mut self)
        ensures
            final(self).view() == Seq::<usize>::empty(),
            final(self).inv(),
    {
        queue_reset(&mut self.queue);
    }

    /// Get the start addresses of all blocks in the list, bottom first.
    pub fn get_blocks(&self) -> (r: Vec<usize>)
        ensures
            r@ == self.view(),
    {
        queue_snapshot(&self.queue)
    }
}

impl Default for BlockList {
    /// An empty list.
    fn default() -> (r: Self)
        ensures
            r.view() == Seq::<usize>::empty(),
            r.inv(),
    {
        BlockList::new()
    }
}

} // verus!
