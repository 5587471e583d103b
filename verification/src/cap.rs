//! The capped allocator's bookkeeping.
//!
//! A [`Cap`] owns the wrapped allocator and four counters. It decides which
//! requests are admitted and keeps the counters; the memory itself comes from
//! the wrapped allocator, through a `delegate` that the caller passes with
//! each request. The view of a cap is its [`Budget`], and every operation is
//! specified by the budget it leaves.
//!
//! The operations that change the counters take `&mut self`: one request is
//! accounted for at a time, and a cap that several threads share is put
//! behind a lock by the program that shares it.

use crate::budget::Budget;
use vstd::prelude::*;

verus! {

/// Wraps an allocator and limits the number of bytes that can be allocated
/// through it.
#[derive(Debug)]
pub struct Cap<H> {
    allocator: H,
    remaining: usize,
    limit: usize,
    total_allocated: usize,
    max_allocated: usize,
}

impl<H> View for Cap<H> {
    type V = Budget;

    closed spec fn view(&self) -> Budget {
        Budget {
            limit: self.limit as nat,
            remaining: self.remaining as nat,
            total_allocated: self.total_allocated as nat,
            max_allocated: self.max_allocated as nat,
        }
    }
}

impl<H> Cap<H> {
    /// What remains is within the limit, after every single update of a
    /// counter.
    #[verifier::type_invariant]
    spec fn within_limit(&self) -> bool {
        self.remaining <= self.limit
    }

    /// The wrapped allocator.
    pub closed spec fn wrapped(&self) -> H {
        self.allocator
    }

    /// Creates a cap that wraps `allocator` and enforces `limit` bytes.
    ///
    /// For no limit, pass `usize::MAX`.
    pub fn new(allocator: H, limit: usize) -> (cap: Self)
        ensures
            cap@ == Budget::fresh(limit as nat),
            cap.wrapped() == allocator,
    {
        Cap { allocator, remaining: limit, limit, total_allocated: 0, max_allocated: 0 }
    }

    /// Returns the number of bytes remaining within the limit.
    pub fn remaining(&self) -> (bytes: usize)
        ensures
            bytes == self@.remaining,
            bytes == self@.limit - self@.allocated(),
    {
        proof {
            use_type_invariant(self);
        }
        self.remaining
    }

    /// Returns the limit in bytes.
    pub fn limit(&self) -> (bytes: usize)
        ensures
            bytes == self@.limit,
            bytes >= self@.allocated(),
    {
        proof {
            use_type_invariant(self);
        }
        self.limit
    }

    /// Returns the number of bytes allocated: the limit less what remains,
    /// never more than the limit.
    pub fn allocated(&self) -> (bytes: usize)
        ensures
            bytes == self@.allocated(),
            bytes == self@.limit - self@.remaining,
            bytes <= self@.limit,
    {
        proof {
            use_type_invariant(self);
        }
        self.limit - self.remaining
    }

    /// Returns the total number of bytes ever granted, freed ones included.
    pub fn total_allocated(&self) -> (bytes: usize)
        ensures
            bytes == self@.total_allocated,
    {
        self.total_allocated
    }

    /// Returns the largest number of bytes that were allocated at one time.
    pub fn max_allocated(&self) -> (bytes: usize)
        ensures
            bytes == self@.max_allocated,
    {
        self.max_allocated
    }

    /// Sets the limit in bytes.
    ///
    /// A limit below the number of bytes already allocated is rejected with
    /// `Err` and changes nothing. Any other limit is accepted: what is
    /// allocated stays allocated, and what remains is the new limit less
    /// that. For no limit, pass `usize::MAX`.
    pub fn set_limit(&mut self, limit: usize) -> (outcome: Result<(), ()>)
        ensures
            outcome is Err <==> limit < old(self)@.allocated(),
            outcome is Err ==> final(self)@ == old(self)@,
            outcome is Ok ==> final(self)@.limit == limit,
            outcome is Ok ==> final(self)@.remaining == limit - old(self)@.allocated(),
            outcome is Ok ==> final(self)@.allocated() == old(self)@.allocated(),
            final(self)@ == old(self)@.set_limit(limit as nat),
            final(self)@.consistent(),
            final(self).wrapped() == old(self).wrapped(),
    {
        proof {
            use_type_invariant(&*self);
        }
        let limit_old = self.limit;
        if limit < limit_old {
            // A lower limit takes the difference out of what remains first.
            // Where that much does not remain, the limit would fall below
            // what is allocated.
            if !self.reserve(limit_old - limit) {
                return Err(());
            }
            self.limit = limit;
        } else {
            // A higher limit is raised first and what remains follows, so
            // that what remains is never above the limit.
            self.limit = limit;
            self.remaining = self.remaining + (limit - limit_old);
        }
        Ok(())
    }

    /// Requests `size` bytes.
    ///
    /// Where `size` bytes remain they are reserved and `delegate` asks the
    /// wrapped allocator for the block. A block that comes back is granted
    /// and enters the statistics; where none comes back the reservation is
    /// undone. Where fewer than `size` bytes remain the request is denied
    /// with `None`, as the wrapped allocator denies one, and `delegate` does
    /// not run.
    pub fn allocate<T, F>(&mut self, size: usize, delegate: F) -> (block: Option<T>)
        where
            F: FnOnce(&H) -> Option<T>,
        requires
            old(self)@.admits(size as nat) ==> delegate.requires((&old(self).wrapped(),)),
        ensures
            block is Some ==> old(self)@.admits(size as nat),
            old(self)@.admits(size as nat) ==> delegate.ensures((&old(self).wrapped(),), block),
            final(self)@ == old(self)@.allocate(size as nat, block is Some),
            final(self)@.consistent(),
            final(self).wrapped() == old(self).wrapped(),
    {
        proof {
            use_type_invariant(&*self);
        }
        if self.reserve(size) {
            let block = delegate(&self.allocator);
            if block.is_some() {
                self.update_stats(size);
            } else {
                self.release(size);
            }
            block
        } else {
            None
        }
    }

    /// Requests `size` zeroed bytes: [`Cap::allocate`] with a `delegate` that
    /// asks the wrapped allocator for zeroed memory.
    pub fn alloc_zeroed<T, F>(&mut self, size: usize, delegate: F) -> (block: Option<T>)
        where
            F: FnOnce(&H) -> Option<T>,
        requires
            old(self)@.admits(size as nat) ==> delegate.requires((&old(self).wrapped(),)),
        ensures
            block is Some ==> old(self)@.admits(size as nat),
            old(self)@.admits(size as nat) ==> delegate.ensures((&old(self).wrapped(),), block),
            final(self)@ == old(self)@.allocate(size as nat, block is Some),
            final(self)@.consistent(),
            final(self).wrapped() == old(self).wrapped(),
    {
        self.allocate(size, delegate)
    }

    /// Frees a block of `size` bytes that was granted through this cap:
    /// `delegate` hands the block back to the wrapped allocator, then its
    /// bytes return to what remains.
    pub fn dealloc<F>(&mut self, size: usize, delegate: F)
        where
            F: FnOnce(&H),
        requires
            size <= old(self)@.allocated(),
            delegate.requires((&old(self).wrapped(),)),
        ensures
            delegate.ensures((&old(self).wrapped(),), ()),
            final(self)@ == old(self)@.dealloc(size as nat),
            final(self)@.consistent(),
            final(self).wrapped() == old(self).wrapped(),
    {
        proof {
            use_type_invariant(&*self);
        }
        delegate(&self.allocator);
        self.release(size);
    }

    /// Resizes a block from `old_size` to `new_size` bytes.
    ///
    /// A block that grows is a request for the difference: it is reserved
    /// first, and `delegate` runs only if that much remains. A block that
    /// does not grow goes to `delegate` first, and the difference returns to
    /// what remains once the wrapped allocator has resized it. `None` leaves
    /// the budget as it was.
    pub fn realloc<T, F>(
        &mut self,
        old_size: usize,
        new_size: usize,
        delegate: F,
    ) -> (block: Option<T>)
        where
            F: FnOnce(&H) -> Option<T>,
        requires
            new_size <= old_size ==> old_size - new_size <= old(self)@.allocated(),
            old(self)@.admits_resize(old_size as nat, new_size as nat) ==> delegate.requires(
                (&old(self).wrapped(),),
            ),
        ensures
            block is Some ==> old(self)@.admits_resize(old_size as nat, new_size as nat),
            old(self)@.admits_resize(old_size as nat, new_size as nat) ==> delegate.ensures(
                (&old(self).wrapped(),),
                block,
            ),
            final(self)@ == old(self)@.realloc(old_size as nat, new_size as nat, block is Some),
            final(self)@.consistent(),
            final(self).wrapped() == old(self).wrapped(),
    {
        proof {
            use_type_invariant(&*self);
        }
        if new_size > old_size {
            self.allocate(new_size - old_size, delegate)
        } else {
            let block = delegate(&self.allocator);
            if block.is_some() {
                self.release(old_size - new_size);
            }
            block
        }
    }

    /// Grows a block from `old_size` to `new_size` bytes where it lies.
    ///
    /// The growth is reserved first; `delegate` runs only if that much
    /// remains and tells whether the wrapped allocator grew the block. A
    /// block that was not grown leaves the budget as it was.
    pub fn grow_in_place<F>(
        &mut self,
        old_size: usize,
        new_size: usize,
        delegate: F,
    ) -> (grown: bool)
        where
            F: FnOnce(&H) -> bool,
        requires
            old_size <= new_size,
            old(self)@.admits((new_size - old_size) as nat) ==> delegate.requires(
                (&old(self).wrapped(),),
            ),
        ensures
            grown ==> old(self)@.admits((new_size - old_size) as nat),
            old(self)@.admits((new_size - old_size) as nat) ==> delegate.ensures(
                (&old(self).wrapped(),),
                grown,
            ),
            final(self)@ == old(self)@.allocate((new_size - old_size) as nat, grown),
            final(self)@.consistent(),
            final(self).wrapped() == old(self).wrapped(),
    {
        proof {
            use_type_invariant(&*self);
        }
        let growth = new_size - old_size;
        if self.reserve(growth) {
            let grown = delegate(&self.allocator);
            if grown {
                self.update_stats(growth);
            } else {
                self.release(growth);
            }
            grown
        } else {
            false
        }
    }

    /// Shrinks a block from `old_size` to `new_size` bytes where it lies.
    ///
    /// `delegate` tells whether the wrapped allocator shrank the block; if
    /// it did, the difference returns to what remains.
    pub fn shrink_in_place<F>(
        &mut self,
        old_size: usize,
        new_size: usize,
        delegate: F,
    ) -> (shrunk: bool)
        where
            F: FnOnce(&H) -> bool,
        requires
            new_size <= old_size,
            old_size - new_size <= old(self)@.allocated(),
            delegate.requires((&old(self).wrapped(),)),
        ensures
            delegate.ensures((&old(self).wrapped(),), shrunk),
            final(self)@ == old(self)@.realloc(old_size as nat, new_size as nat, shrunk),
            final(self)@.consistent(),
            final(self).wrapped() == old(self).wrapped(),
    {
        proof {
            use_type_invariant(&*self);
        }
        let shrunk = delegate(&self.allocator);
        if shrunk {
            self.release(old_size - new_size);
        }
        shrunk
    }

    /// Takes `size` bytes out of what remains, if that much remains.
    fn reserve(&mut self, size: usize) -> (admitted: bool)
        ensures
            admitted == old(self)@.admits(size as nat),
            admitted ==> final(self)@ == old(self)@.reserve(size as nat),
            !admitted ==> final(self)@ == old(self)@,
            final(self)@.consistent(),
            final(self).wrapped() == old(self).wrapped(),
    {
        proof {
            use_type_invariant(&*self);
        }
        if size <= self.remaining {
            self.remaining = self.remaining - size;
            true
        } else {
            false
        }
    }

    /// Returns `size` allocated bytes to what remains.
    fn release(&mut self, size: usize)
        requires
            size <= old(self)@.allocated(),
        ensures
            final(self)@ == old(self)@.release(size as nat),
            final(self)@.consistent(),
            final(self).wrapped() == old(self).wrapped(),
    {
        proof {
            use_type_invariant(&*self);
        }
        self.remaining = self.remaining + size;
    }

    /// Folds a grant of `size` bytes into the statistics.
    fn update_stats(&mut self, size: usize)
        ensures
            final(self)@ == old(self)@.record(size as nat),
            final(self)@.consistent(),
            final(self).wrapped() == old(self).wrapped(),
    {
        proof {
            use_type_invariant(&*self);
        }
        self.total_allocated = self.total_allocated.wrapping_add(size);
        let allocated = self.allocated();
        if allocated > self.max_allocated {
            self.max_allocated = allocated;
        }
    }
}

} // verus!
