//! The memory provider of a machine instance and the single entry point
//! through which the machine asks it for memory.

use vstd::prelude::*;

verus! {

/// A provider of raw memory. Blocks are named by their address; address `0`
/// is no block.
pub trait LuauAllocator {
    /// A fresh block of `nsize` bytes, or `0` if there is none to give.
    fn allocate(&mut self, nsize: usize) -> usize;

    /// The block `ptr` of `osize` bytes, resized to `nsize` bytes with the
    /// common prefix kept, or `0` if that cannot be done.
    fn realloc(&mut self, ptr: usize, osize: usize, nsize: usize) -> usize;

    /// Gives the block `ptr` of `osize` bytes back.
    fn dealloc(&mut self, ptr: usize, osize: usize);
}

/// What one call of the machine's allocation entry point asks for.
#[derive(Clone, Copy, Debug, PartialEq, Eq, Structural)]
pub enum AllocRequest {
    /// Give the block back; the machine ignores the answer.
    Release { ptr: usize, osize: usize },
    /// Nothing to give back and nothing wanted.
    Nothing,
    /// A fresh block of `nsize` bytes.
    Fresh { nsize: usize },
    /// The first `min(osize, nsize)` bytes of the block in a block of `nsize`
    /// bytes.
    Resize { ptr: usize, osize: usize, nsize: usize },
}

impl AllocRequest {
    /// The request that `(ptr, osize, nsize)` stands for, read from the two
    /// sizes: a new size of zero frees the block, if there is one; an old size
    /// of zero asks for a fresh block of the new size; two sizes that are not
    /// zero ask for a resize.
    pub open spec fn spec_classify(ptr: usize, osize: usize, nsize: usize) -> AllocRequest {
        if nsize == 0 {
            if ptr != 0 {
                AllocRequest::Release { ptr, osize }
            } else {
                AllocRequest::Nothing
            }
        } else if osize == 0 {
            AllocRequest::Fresh { nsize }
        } else {
            AllocRequest::Resize { ptr, osize, nsize }
        }
    }

    /// Reads the three numbers of an allocation call.
    pub fn classify(ptr: usize, osize: usize, nsize: usize) -> (request: AllocRequest)
        ensures
            request == Self::spec_classify(ptr, osize, nsize),
    {
        if nsize == 0 {
            if ptr != 0 {
                AllocRequest::Release { ptr, osize }
            } else {
                AllocRequest::Nothing
            }
        } else if osize == 0 {
            AllocRequest::Fresh { nsize }
        } else {
            AllocRequest::Resize { ptr, osize, nsize }
        }
    }

    /// Whether the answer to this request is fixed to be no block, whatever
    /// the allocator does.
    pub open spec fn answers_null(self) -> bool {
        self is Release || self is Nothing
    }

    /// Hands the request to `allocator` and returns the block for the machine:
    /// - a release is one call of `dealloc` with the block and its size, and
    ///   the machine gets no block;
    /// - an empty request leaves the allocator alone, and the machine gets no
    ///   block;
    /// - a fresh block is one call of `allocate` with the size, and the
    ///   machine gets what the call returned;
    /// - a resize is one call of `realloc` with the block and the two sizes,
    ///   and the machine gets what the call returned.
    ///
    /// In each case the allocator is asked once: a call that returned no
    /// block is a failed allocation that the machine reports itself, and is
    /// not made again.
    pub fn perform<A: LuauAllocator>(self, allocator: &mut A) -> (block: usize)
        ensures
            ({
                let before = *old(allocator);
                let after = *final(allocator);
                match self {
                    AllocRequest::Release { ptr, osize } => block == 0 && exists|call: &mut A|
                        mut_ref_current(call) == before && mut_ref_future(call) == after
                            && call_ensures(A::dealloc, (call, ptr, osize), ()),
                    AllocRequest::Nothing => block == 0 && after == before,
                    AllocRequest::Fresh { nsize } => exists|call: &mut A|
                        mut_ref_current(call) == before && mut_ref_future(call) == after
                            && call_ensures(A::allocate, (call, nsize), block),
                    AllocRequest::Resize { ptr, osize, nsize } => exists|call: &mut A|
                        mut_ref_current(call) == before && mut_ref_future(call) == after
                            && call_ensures(A::realloc, (call, ptr, osize, nsize), block),
                }
            }),
            self.answers_null() ==> block == 0,
    {
        match self {
            AllocRequest::Release { ptr, osize } => {
                allocator.dealloc(ptr, osize);
                0
            },
            AllocRequest::Nothing => 0,
            AllocRequest::Fresh { nsize } => allocator.allocate(nsize),
            AllocRequest::Resize { ptr, osize, nsize } => allocator.realloc(ptr, osize, nsize),
        }
    }
}

/// The allocation entry point of a machine instance: reads the call as
/// `AllocRequest::classify` does, and has `allocator` serve the request as
/// `AllocRequest::perform` does, with one call of the allocator at most.
pub fn alloc_fn<A: LuauAllocator>(allocator: &mut A, ptr: usize, osize: usize, nsize: usize) -> (block: usize)
    ensures
        ({
            let before = *old(allocator);
            let after = *final(allocator);
            match AllocRequest::spec_classify(ptr, osize, nsize) {
                AllocRequest::Release { ptr: p, osize: o } => block == 0 && exists|call: &mut A|
                    mut_ref_current(call) == before && mut_ref_future(call) == after
                        && call_ensures(A::dealloc, (call, p, o), ()),
                AllocRequest::Nothing => block == 0 && after == before,
                AllocRequest::Fresh { nsize: n } => exists|call: &mut A|
                    mut_ref_current(call) == before && mut_ref_future(call) == after
                        && call_ensures(A::allocate, (call, n), block),
                AllocRequest::Resize { ptr: p, osize: o, nsize: n } => exists|call: &mut A|
                    mut_ref_current(call) == before && mut_ref_future(call) == after
                        && call_ensures(A::realloc, (call, p, o, n), block),
            }
        }),
        nsize == 0 ==> block == 0,
{
    AllocRequest::classify(ptr, osize, nsize).perform(allocator)
}

} // verus!
