use cap::Cap;
use std::cell::Cell;

/// A wrapped allocator that hands out addresses and counts the calls made
/// to it.
struct Counting {
    calls: Cell<usize>,
    next: Cell<usize>,
}

impl Counting {
    fn new() -> Self {
        Counting { calls: Cell::new(0), next: Cell::new(0x1000) }
    }

    fn serve(&self, size: usize) -> Option<usize> {
        self.calls.set(self.calls.get() + 1);
        let address = self.next.get();
        self.next.set(address + size.max(1));
        Some(address)
    }

    fn refuse(&self) -> Option<usize> {
        self.calls.set(self.calls.get() + 1);
        None
    }

    fn free(&self) {
        self.calls.set(self.calls.get() + 1);
    }
}

#[test]
fn new_cap_has_everything_remaining() {
    let cap = Cap::new((), 4096);
    assert_eq!(cap.limit(), 4096);
    assert_eq!(cap.remaining(), 4096);
    assert_eq!(cap.allocated(), 0);
    assert_eq!(cap.total_allocated(), 0);
    assert_eq!(cap.max_allocated(), 0);
}

#[test]
fn unlimited_cap_admits_the_largest_request() {
    let mut cap = Cap::new((), usize::MAX);
    assert_eq!(cap.limit(), usize::MAX);
    assert_eq!(cap.remaining(), usize::MAX);
    assert_eq!(cap.allocate(usize::MAX, |_: &()| Some(1u8)), Some(1u8));
    assert_eq!(cap.remaining(), 0);
    assert_eq!(cap.allocated(), usize::MAX);
}

#[test]
fn allocation_within_limit_is_granted_then_excess_is_denied() {
    let heap = Counting::new();
    let mut cap = Cap::new(heap, 100);

    let first = cap.allocate(60, |heap: &Counting| heap.serve(60));
    assert_eq!(first, Some(0x1000));
    assert_eq!(cap.remaining(), 40);
    assert_eq!(cap.allocated(), 60);

    let calls = Cell::new(0);
    let second = cap.allocate(50, |heap: &Counting| {
        calls.set(heap.calls.get() + 1);
        heap.serve(50)
    });
    assert_eq!(second, None);
    assert_eq!(calls.get(), 0);
    assert_eq!(cap.remaining(), 40);
    assert_eq!(cap.allocated(), 60);
    assert_eq!(cap.limit(), 100);
}

#[test]
fn freeing_returns_the_bytes() {
    let mut cap = Cap::new(Counting::new(), 100);
    let block = cap.allocate(60, |heap: &Counting| heap.serve(60));
    assert!(block.is_some());
    assert!(cap.allocate(50, |heap: &Counting| heap.serve(50)).is_none());

    let freed = Cell::new(false);
    cap.dealloc(60, |heap: &Counting| {
        heap.free();
        freed.set(true);
    });
    assert!(freed.get());
    assert_eq!(cap.remaining(), 100);
    assert_eq!(cap.allocated(), 0);
}

#[test]
fn limit_below_allocated_is_rejected_and_above_is_accepted() {
    let mut cap = Cap::new(Counting::new(), 100);
    assert!(cap.allocate(80, |heap: &Counting| heap.serve(80)).is_some());
    assert_eq!(cap.remaining(), 20);

    assert_eq!(cap.set_limit(50), Err(()));
    assert_eq!(cap.limit(), 100);
    assert_eq!(cap.remaining(), 20);
    assert_eq!(cap.allocated(), 80);

    assert_eq!(cap.set_limit(90), Ok(()));
    assert_eq!(cap.limit(), 90);
    assert_eq!(cap.remaining(), 10);
    assert_eq!(cap.allocated(), 80);
}

#[test]
fn growth_beyond_remaining_is_denied() {
    let mut cap = Cap::new(Counting::new(), 22);
    let block = cap.allocate(10, |heap: &Counting| heap.serve(10));
    assert_eq!(block, Some(0x1000));
    assert_eq!(cap.remaining(), 12);
    let total = cap.total_allocated();
    let peak = cap.max_allocated();

    let asked = Cell::new(false);
    let grown = cap.realloc(10, 25, |heap: &Counting| {
        asked.set(true);
        heap.serve(25)
    });
    assert_eq!(grown, None);
    assert!(!asked.get());
    assert_eq!(cap.remaining(), 12);
    assert_eq!(cap.allocated(), 10);
    assert_eq!(cap.limit(), 22);
    assert_eq!(cap.total_allocated(), total);
    assert_eq!(cap.max_allocated(), peak);
}

#[test]
fn request_of_exactly_the_remainder_is_granted() {
    let mut cap = Cap::new((), 64);
    assert_eq!(cap.allocate(64, |_: &()| Some('a')), Some('a'));
    assert_eq!(cap.remaining(), 0);
    assert_eq!(cap.allocate(1, |_: &()| Some('b')), None);
    assert_eq!(cap.remaining(), 0);
}

#[test]
fn empty_request_reaches_the_wrapped_allocator() {
    let mut cap = Cap::new(Counting::new(), 8);
    assert!(cap.allocate(8, |heap: &Counting| heap.serve(8)).is_some());
    assert_eq!(cap.remaining(), 0);

    let reached = Cell::new(0);
    let sentinel = cap.allocate(0, |heap: &Counting| {
        reached.set(reached.get() + 1);
        heap.serve(0)
    });
    assert!(sentinel.is_some());
    assert_eq!(reached.get(), 1);
    assert_eq!(cap.remaining(), 0);
    assert_eq!(cap.allocated(), 8);
    assert_eq!(cap.total_allocated(), 8);
    assert_eq!(cap.max_allocated(), 8);
}

#[test]
fn failure_of_the_wrapped_allocator_undoes_the_reservation() {
    let mut cap = Cap::new(Counting::new(), 100);
    assert!(cap.allocate(30, |heap: &Counting| heap.serve(30)).is_some());

    let asked = Cell::new(false);
    let block = cap.allocate(40, |heap: &Counting| {
        asked.set(true);
        heap.refuse()
    });
    assert_eq!(block, None);
    assert!(asked.get());
    assert_eq!(cap.remaining(), 70);
    assert_eq!(cap.allocated(), 30);
    assert_eq!(cap.total_allocated(), 30);
    assert_eq!(cap.max_allocated(), 30);
}

#[test]
fn zeroed_request_is_admitted_like_any_other() {
    let mut cap = Cap::new((), 100);
    let zeroed = cap.alloc_zeroed(60, |_: &()| Some(vec![0u8; 60]));
    assert_eq!(zeroed, Some(vec![0u8; 60]));
    assert_eq!(cap.remaining(), 40);
    assert_eq!(cap.total_allocated(), 60);

    let asked = Cell::new(false);
    let denied = cap.alloc_zeroed(41, |_: &()| {
        asked.set(true);
        Some(vec![0u8; 41])
    });
    assert_eq!(denied, None);
    assert!(!asked.get());
    assert_eq!(cap.remaining(), 40);

    let failed = cap.alloc_zeroed(40, |_: &()| None::<Vec<u8>>);
    assert_eq!(failed, None);
    assert_eq!(cap.remaining(), 40);
    assert_eq!(cap.total_allocated(), 60);
}

#[test]
fn delegate_is_handed_the_wrapped_allocator() {
    let mut cap = Cap::new(7usize, 100);
    assert_eq!(cap.allocate(1, |tag: &usize| Some(*tag)), Some(7));
    assert_eq!(cap.realloc(1, 2, |tag: &usize| Some(*tag + 1)), Some(8));
    assert_eq!(cap.realloc(2, 1, |tag: &usize| Some(*tag + 2)), Some(9));
    let seen = Cell::new(0);
    cap.dealloc(1, |tag: &usize| seen.set(*tag));
    assert_eq!(seen.get(), 7);
    assert_eq!(cap.allocated(), 0);
}

#[test]
fn matched_requests_leave_allocated_unchanged() {
    let mut cap = Cap::new(Counting::new(), 1000);
    assert!(cap.allocate(100, |heap: &Counting| heap.serve(100)).is_some());
    let before = cap.allocated();
    let sizes = [1usize, 17, 0, 250, 33, 499];
    for &size in sizes.iter() {
        assert!(cap.allocate(size, |heap: &Counting| heap.serve(size)).is_some());
    }
    assert_eq!(cap.allocated(), before + 800);
    for &size in sizes.iter().rev() {
        cap.dealloc(size, |heap: &Counting| heap.free());
    }
    assert_eq!(cap.allocated(), before);
    assert_eq!(cap.remaining(), 900);
}

#[test]
fn interleaved_workers_converge() {
    let workers = 8usize;
    let cycles = 50usize;
    let mut cap = Cap::new(Counting::new(), usize::MAX);
    assert!(cap.allocate(12345, |heap: &Counting| heap.serve(12345)).is_some());
    let before = cap.allocated();
    let mut granted = 0usize;
    for cycle in 0..cycles {
        for worker in 0..workers {
            let size = (worker + 1) * (cycle + 1);
            assert!(cap.allocate(size, |heap: &Counting| heap.serve(size)).is_some());
            granted += size;
            if worker % 2 == 1 {
                let earlier = worker * (cycle + 1);
                cap.dealloc(earlier, |heap: &Counting| heap.free());
            }
        }
        for worker in 0..workers {
            if worker % 2 == 1 {
                let size = (worker + 1) * (cycle + 1);
                cap.dealloc(size, |heap: &Counting| heap.free());
            }
        }
        assert_eq!(cap.allocated(), before);
        assert!(cap.allocated() <= cap.limit());
        assert_eq!(cap.remaining(), cap.limit() - cap.allocated());
    }
    assert_eq!(cap.allocated(), before);
    assert_eq!(cap.total_allocated(), 12345 + granted);
    assert_eq!(granted, 36 * 1275);
    assert!(cap.max_allocated() < cap.total_allocated());
    assert!(cap.max_allocated() >= cap.allocated());
}
