//! The mathematical model of a byte budget.
//!
//! A [`Budget`] is what a capped allocator knows about itself between two
//! requests: the configured limit, the bytes not yet granted, and two
//! statistics. Every operation of the allocator is described here as a pure
//! function from one budget to the next; the executable code is verified
//! against these functions.

use vstd::prelude::*;

verus! {

/// The counters of a capped allocator, as unbounded naturals.
pub struct Budget {
    /// The configured cap, in bytes.
    pub limit: nat,
    /// Bytes of the cap that have not been granted.
    pub remaining: nat,
    /// Bytes ever granted, including bytes freed since; wraps around at the
    /// width of a machine word.
    pub total_allocated: nat,
    /// The largest number of bytes that were granted at the same time.
    pub max_allocated: nat,
}

/// The number of values a `usize` counter can hold.
pub open spec fn word_range() -> nat {
    (usize::MAX + 1) as nat
}

/// What a `usize` counter that held `total` holds after `size` was added to
/// it: the sum while that fits a word, else the sum less the word range.
pub open spec fn wrapping_total(total: nat, size: nat) -> nat
    recommends
        total < word_range(),
        size < word_range(),
{
    if total + size < word_range() {
        total + size
    } else {
        (total + size - word_range()) as nat
    }
}

impl Budget {
    /// A budget of `limit` bytes from which nothing has been granted.
    pub open spec fn fresh(limit: nat) -> Budget {
        Budget { limit, remaining: limit, total_allocated: 0, max_allocated: 0 }
    }

    /// The budget never holds more free bytes than its limit.
    pub open spec fn consistent(self) -> bool {
        self.remaining <= self.limit
    }

    /// Bytes currently granted.
    pub open spec fn allocated(self) -> nat {
        (self.limit - self.remaining) as nat
    }

    /// The statistics agree with the budget: the peak is at least what is
    /// granted now and at most what was ever granted.
    pub open spec fn stats_sound(self) -> bool {
        self.allocated() <= self.max_allocated <= self.total_allocated
    }

    /// Whether a request for `size` more bytes fits into what remains.
    pub open spec fn admits(self, size: nat) -> bool {
        size <= self.remaining
    }

    /// Takes `size` bytes out of what remains.
    pub open spec fn reserve(self, size: nat) -> Budget
        recommends
            self.admits(size),
    {
        Budget { remaining: (self.remaining - size) as nat, ..self }
    }

    /// Returns `size` bytes to what remains.
    pub open spec fn release(self, size: nat) -> Budget
        recommends
            size <= self.allocated(),
    {
        Budget { remaining: self.remaining + size, ..self }
    }

    /// Folds a grant of `size` bytes into the statistics: the running total
    /// grows by `size`, wrapping around where a word cannot hold the sum, and
    /// the peak rises to the bytes granted now if that is more.
    pub open spec fn record(self, size: nat) -> Budget {
        Budget {
            total_allocated: wrapping_total(self.total_allocated, size),
            max_allocated: if self.allocated() > self.max_allocated {
                self.allocated()
            } else {
                self.max_allocated
            },
            ..self
        }
    }

    /// A completed grant: the bytes are reserved, then recorded.
    pub open spec fn grant(self, size: nat) -> Budget
        recommends
            self.admits(size),
    {
        self.reserve(size).record(size)
    }

    /// The budget after a request for `size` bytes. The request is granted
    /// when it fits and the wrapped allocator served it (`served`); in every
    /// other case nothing changes.
    pub open spec fn allocate(self, size: nat, served: bool) -> Budget {
        if self.admits(size) && served {
            self.grant(size)
        } else {
            self
        }
    }

    /// The budget after a block of `size` bytes was freed.
    pub open spec fn dealloc(self, size: nat) -> Budget
        recommends
            size <= self.allocated(),
    {
        self.release(size)
    }

    /// Whether a resize from `old_size` to `new_size` bytes is handed to the
    /// wrapped allocator: always when the block does not grow, else when the
    /// growth fits into what remains.
    pub open spec fn admits_resize(self, old_size: nat, new_size: nat) -> bool {
        new_size <= old_size || self.admits((new_size - old_size) as nat)
    }

    /// The budget after a block was resized from `old_size` to `new_size`
    /// bytes. Growth is a request for the difference. A block that does not
    /// grow returns the difference, provided the wrapped allocator carried
    /// the resize out (`served`).
    pub open spec fn realloc(self, old_size: nat, new_size: nat, served: bool) -> Budget
        recommends
            new_size <= old_size ==> old_size - new_size <= self.allocated(),
    {
        if new_size > old_size {
            self.allocate((new_size - old_size) as nat, served)
        } else if served {
            self.release((old_size - new_size) as nat)
        } else {
            self
        }
    }

    /// Whether `limit` can become the new cap: it must cover what is granted.
    pub open spec fn accepts_limit(self, limit: nat) -> bool {
        self.allocated() <= limit
    }

    /// The budget after a request to change the cap to `limit`. An accepted
    /// limit keeps the granted bytes and adjusts what remains; a rejected one
    /// changes nothing.
    pub open spec fn set_limit(self, limit: nat) -> Budget {
        if self.accepts_limit(limit) {
            Budget { limit, remaining: (limit - self.allocated()) as nat, ..self }
        } else {
            self
        }
    }
}

} // verus!
