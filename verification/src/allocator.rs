//! Bookkeeping for a fixed-capacity bump arena: a cursor that advances on
//! each allocation and a live-allocation count whose return to zero reclaims
//! the whole arena.

use vstd::prelude::*;

verus! {

/// The only failure of the allocator: the remaining capacity cannot hold the
/// requested reservation.
#[derive(Clone, Copy, Debug, PartialEq, Eq, Structural)]
pub struct ExhaustionError;

/// Bookkeeping for a byte arena spanning the addresses
/// `arena_base() ..= arena_end()`. The arena's bytes themselves live with the
/// caller; the allocator hands out addresses and tracks how much is in use.
pub struct BumpAllocator {
    base: usize,
    heap_end: usize,
    next_free: usize,
    allocations: usize,
}

impl BumpAllocator {
    /// The first address of the arena.
    pub closed spec fn arena_base(self) -> int {
        self.base as int
    }

    /// The last address of the arena: `arena_base() + capacity - 1`.
    pub closed spec fn arena_end(self) -> int {
        self.heap_end as int
    }

    /// The next free address.
    pub closed spec fn cursor(self) -> int {
        self.next_free as int
    }

    /// The number of allocations issued and not yet deallocated.
    pub closed spec fn live(self) -> int {
        self.allocations as int
    }

    /// Bytes of the arena in use: everything below the cursor.
    pub open spec fn used(self) -> int {
        self.cursor() - self.arena_base()
    }

    /// Bytes between the cursor and the end of the arena.
    pub open spec fn free_bytes(self) -> int {
        self.arena_end() - self.cursor()
    }

    /// Well-formedness: the cursor stays within the arena, and an allocator
    /// with no live allocation is fully reclaimed (cursor at base).
    pub open spec fn wf(self) -> bool {
        &&& self.arena_base() <= self.cursor() <= self.arena_end()
        &&& self.live() == 0 ==> self.cursor() == self.arena_base()
    }

    /// A reservation of `amount` bytes fits: advancing the cursor by `amount`
    /// stays strictly below the end of the arena.
    pub open spec fn can_alloc(self, amount: int) -> bool {
        self.cursor() + amount < self.arena_end()
    }

    /// Creates the allocator for an arena of `capacity` bytes starting at
    /// address `base`: the cursor starts at the base, the end of the arena is
    /// the address of its last byte, and nothing is live. Construction is the
    /// one-time initialization; ownership makes a second one impossible.
    pub fn new(base: usize, capacity: usize) -> (r: Self)
        requires
            capacity >= 1,
            base + capacity - 1 <= usize::MAX,
        ensures
            r.wf(),
            r.arena_base() == base,
            r.arena_end() == base + capacity - 1,
            r.cursor() == base,
            r.live() == 0,
    {
        BumpAllocator { base, heap_end: base + (capacity - 1), next_free: base, allocations: 0 }
    }

    /// Reserves `amount` bytes. On success the returned address is the
    /// pre-call cursor; the cursor advances by `amount` and the live count by
    /// one. When the reservation does not fit, nothing changes and `None`
    /// comes back.
    pub fn try_alloc(&mut self, amount: usize) -> (r: Option<usize>)
        requires
            old(self).wf(),
            old(self).live() < usize::MAX,
        ensures
            final(self).wf(),
            r is Some <==> old(self).can_alloc(amount as int),
            r matches Some(addr) ==> alloc_success(*old(self), *final(self), amount, addr),
            r is None ==> *final(self) == *old(self),
    {
        if amount >= self.heap_end - self.next_free {
            return None;
        }

        let free: usize = self.next_free;
        self.next_free = self.next_free + amount;
        self.allocations = self.allocations + 1;

        Some(free)
    }

    /// Retires one allocation. A live count of zero is left alone (no
    /// underflow); when the count reaches zero the cursor returns to the base
    /// and the whole arena is available again.
    pub fn try_dealloc(&mut self)
        requires
            old(self).wf(),
        ensures
            final(self).wf(),
            dealloc_step(*old(self), *final(self)),
            old(self).live() == 0 ==> *final(self) == *old(self),
    {
        if self.allocations > 0 {
            self.allocations = self.allocations - 1;
        }

        if self.allocations == 0 {
            self.next_free = self.base;
        }
    }

    /// Serves an allocation request of `size` bytes with the given alignment.
    /// The reservation is over-sized to `size + align` bytes, so that a
    /// caller may shift the returned address up to the alignment boundary
    /// within it. Fails with [`ExhaustionError`], changing nothing, exactly
    /// when the cursor plus the effective size would reach or pass the end of
    /// the arena.
    pub fn allocate(&mut self, size: usize, align: usize) -> (r: Result<
        usize,
        ExhaustionError,
    >)
        requires
            old(self).wf(),
            old(self).live() < usize::MAX,
        ensures
            final(self).wf(),
            r is Ok <==> old(self).can_alloc(effective_size(size as int, align as int)),
            r matches Ok(addr) ==> alloc_success(
                *old(self),
                *final(self),
                (size + align) as usize,
                addr,
            ),
            r is Err ==> r == Err::<usize, ExhaustionError>(ExhaustionError) && *final(self)
                == *old(self),
    {
        if size > usize::MAX - align {
            return Err(ExhaustionError);
        }

        match self.try_alloc(size + align) {
            Some(addr) => Ok(addr),
            None => Err(ExhaustionError),
        }
    }

    /// The first address of the arena.
    pub fn base_addr(&self) -> (r: usize)
        ensures
            r == self.arena_base(),
    {
        self.base
    }

    /// The last address of the arena.
    pub fn end_addr(&self) -> (r: usize)
        ensures
            r == self.arena_end(),
    {
        self.heap_end
    }

    /// The next free address.
    pub fn cursor_addr(&self) -> (r: usize)
        ensures
            r == self.cursor(),
    {
        self.next_free
    }

    /// The number of allocations issued and not yet deallocated.
    pub fn live_count(&self) -> (r: usize)
        ensures
            r == self.live(),
    {
        self.allocations
    }

    /// Bytes of the arena in use: everything below the cursor.
    pub fn used_bytes(&self) -> (r: usize)
        requires
            self.wf(),
        ensures
            r == self.used(),
    {
        self.next_free - self.base
    }

    /// Bytes between the cursor and the end of the arena.
    pub fn free_bytes_left(&self) -> (r: usize)
        requires
            self.wf(),
        ensures
            r == self.free_bytes(),
    {
        self.heap_end - self.next_free
    }

    /// The status report: the used and free byte counts as text. Read-only.
    pub fn stats_report(&self) -> (r: String)
        requires
            self.wf(),
        ensures
            r@ == crate::report::spec_report(self.used() as nat, self.free_bytes() as nat),
    {
        let used = self.used_bytes();
        let free = self.free_bytes_left();
        crate::report::report(used, free)
    }

    /// Retires one allocation. The address, size and alignment are accepted
    /// for interface compatibility but play no part in reclamation: a bump
    /// arena reclaims only as a whole, when the live count returns to zero.
    pub fn deallocate(&mut self, _addr: usize, _size: usize, _align: usize)
        requires
            old(self).wf(),
        ensures
            final(self).wf(),
            dealloc_step(*old(self), *final(self)),
            old(self).live() == 0 ==> *final(self) == *old(self),
    {
        self.try_dealloc();
    }
}

/// The effective reservation for a request of `size` bytes at alignment
/// `align`: the two added together.
pub open spec fn effective_size(size: int, align: int) -> int {
    size + align
}

/// One successful allocation of `amount` bytes returning `addr`, taking the
/// allocator from `pre` to `post`: the address is the pre-call cursor, the
/// cursor advances by `amount`, the live count by one, and the arena's bounds
/// stay put.
pub open spec fn alloc_success(
    pre: BumpAllocator,
    post: BumpAllocator,
    amount: usize,
    addr: usize,
) -> bool {
    &&& pre.can_alloc(amount as int)
    &&& addr == pre.cursor()
    &&& post.cursor() == pre.cursor() + amount
    &&& post.live() == pre.live() + 1
    &&& post.arena_base() == pre.arena_base()
    &&& post.arena_end() == pre.arena_end()
}

/// One deallocation taking the allocator from `pre` to `post`: a positive
/// live count goes down by one, a zero count stays zero, the arena's bounds
/// stay put, and a count that reaches zero puts the cursor back at the base.
pub open spec fn dealloc_step(pre: BumpAllocator, post: BumpAllocator) -> bool {
    &&& post.arena_base() == pre.arena_base()
    &&& post.arena_end() == pre.arena_end()
    &&& post.live() == (if pre.live() > 0 {
        pre.live() - 1
    } else {
        0
    })
    &&& post.live() == 0 ==> post.cursor() == post.arena_base()
    &&& post.live() > 0 ==> post.cursor() == pre.cursor()
}

/// Consecutive successful allocations hand out strictly increasing
/// addresses, as long as the first reserves at least one byte: the second
/// address lies exactly past the whole first reservation.
pub proof fn lemma_addresses_strictly_increase(
    s0: BumpAllocator,
    s1: BumpAllocator,
    s2: BumpAllocator,
    n1: usize,
    n2: usize,
    a1: usize,
    a2: usize,
)
    requires
        alloc_success(s0, s1, n1, a1),
        alloc_success(s1, s2, n2, a2),
        n1 > 0,
    ensures
        a2 == a1 + n1,
        a2 > a1,
{
}

/// Across any run of successful allocations in which every reservation is at
/// least one byte, the addresses handed out are strictly increasing — so no
/// address is ever issued twice while the arena is not drained. The run is
/// given as its chain of states, with `amounts[k]` and `addrs[k]` the
/// reservation and address of the step from `states[k]` to `states[k + 1]`.
pub proof fn lemma_run_addresses_strictly_increase(
    states: Seq<BumpAllocator>,
    amounts: Seq<usize>,
    addrs: Seq<usize>,
    i: int,
    j: int,
)
    requires
        states.len() == amounts.len() + 1,
        addrs.len() == amounts.len(),
        forall|k: int|
            0 <= k < amounts.len() ==> alloc_success(states[k], states[k + 1], amounts[k], addrs[k]),
        forall|k: int| 0 <= k < amounts.len() ==> amounts[k] > 0,
        0 <= i < j < addrs.len(),
    ensures
        addrs[i] < addrs[j],
        addrs[i] != addrs[j],
    decreases j - i,
{
    assert(alloc_success(states[j - 1], states[j], amounts[j - 1], addrs[j - 1]));
    assert(alloc_success(states[j], states[j + 1], amounts[j], addrs[j]));
    if i + 1 < j {
        lemma_run_addresses_strictly_increase(states, amounts, addrs, i, j - 1);
    }
}

/// Once a deallocation drains the arena — the live count reaches zero — the
/// next successful allocation returns the arena's base address: the whole
/// arena has been reclaimed.
pub proof fn lemma_full_drain_then_alloc_returns_base(
    s0: BumpAllocator,
    s1: BumpAllocator,
    s2: BumpAllocator,
    n: usize,
    addr: usize,
)
    requires
        dealloc_step(s0, s1),
        s1.live() == 0,
        alloc_success(s1, s2, n, addr),
    ensures
        addr == s1.arena_base(),
{
}

/// Deallocating when nothing is live changes nothing: the count stays at
/// zero and the cursor is not disturbed, however many times this happens.
pub proof fn lemma_dealloc_when_empty(s0: BumpAllocator, s1: BumpAllocator)
    requires
        s0.wf(),
        s0.live() == 0,
        dealloc_step(s0, s1),
    ensures
        s1.live() == 0,
        s1.cursor() == s0.cursor(),
        s1.arena_base() == s0.arena_base(),
        s1.arena_end() == s0.arena_end(),
{
}

} // verus!
