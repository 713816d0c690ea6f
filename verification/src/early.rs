//! A bump allocator for the time before the kernel's real allocator exists.
//!
//! The allocator owns the address range `start..end` and hands out what lies
//! behind `next`. It never touches the memory itself: it deals in addresses.
//! Bytes are given back only all at once, when the last of them is freed.

use vstd::prelude::*;
use vstd::arithmetic::power::lemma_pow_positive;
use vstd::arithmetic::power::pow;
use vstd::arithmetic::power2::is_pow2;
use vstd::arithmetic::power2::is_pow2_equiv;
use vstd::arithmetic::power2::lemma2_to64;
use vstd::arithmetic::power2::lemma2_to64_rest;
use vstd::layout::size_of;
use vstd::layout::valid_layout;

verus! {

/// Why an allocation was turned down.
#[derive(Clone, Copy, Debug, PartialEq, Eq, Structural)]
pub enum AllocError {
    /// A size or an alignment is not one the allocator can serve.
    InvalidParam,
    /// Not enough memory is left.
    NoMemory,
}

/// Size and alignment of a request for bytes.
#[derive(Clone, Copy, Debug, PartialEq, Eq, Structural)]
pub struct AllocLayout {
    /// Number of bytes asked for.
    pub size: usize,
    /// Alignment of the first byte. A power of two.
    pub align: usize,
}

impl AllocLayout {
    /// The alignment is a power of two, and the size, rounded up to the
    /// alignment, is at most `isize::MAX`.
    pub open spec fn wf(&self) -> bool {
        valid_layout(self.size, self.align)
    }

    /// The layout of `size` and `align`, if they make one.
    pub fn from_size_align(size: usize, align: usize) -> (r: Option<AllocLayout>)
        ensures
            r is Some <==> valid_layout(size, align),
            r matches Some(l) ==> l == (AllocLayout { size, align }),
    {
        if !is_power_of_two(align) {
            return None;
        }
        proof {
            reveal(is_pow2);
            assert(isize::MAX == usize::MAX / 2);
        }
        let half: usize = usize::MAX / 2;
        let rest: usize = half % align;
        assert(rest <= half) by (nonlinear_arith)
            requires
                align > 0,
                rest == half % align,
        ;
        if size > half - rest {
            return None;
        }
        Some(AllocLayout { size, align })
    }
}

/// The smallest power of two that is not below `n`.
pub open spec fn next_pow2(n: int) -> int
    decreases n,
{
    if n <= 1 {
        1
    } else {
        2 * next_pow2((n + 1) / 2)
    }
}

/// `next_pow2(n)` is a power of two, is not below `n`, and is below `2 * n`
/// unless `n` is below one.
pub proof fn lemma_next_pow2(n: int)
    ensures
        is_pow2(next_pow2(n)),
        n <= next_pow2(n),
        1 <= n ==> next_pow2(n) < 2 * n,
    decreases n,
{
    reveal(is_pow2);
    if n > 1 {
        lemma_next_pow2((n + 1) / 2);
    }
}

/// A power of two `p` that is not below `n`, and whose half is below `n`, is
/// `next_pow2(n)`.
pub proof fn lemma_next_pow2_unique(n: int, p: int)
    requires
        is_pow2(p),
        n <= p,
        p == 1 || p < 2 * n,
    ensures
        p == next_pow2(n),
    decreases n,
{
    reveal(is_pow2);
    if n > 1 {
        lemma_next_pow2_unique((n + 1) / 2, p / 2);
    }
}

/// Rounding `addr` up with the mask of `align`. For a power of two this is
/// the next multiple of `align` at or above `addr`.
pub open spec fn align_up_spec(addr: usize, align: usize) -> usize {
    ((addr + align - 1) as usize) & !((align - 1) as usize)
}

/// The larger of two numbers.
pub open spec fn max2(a: int, b: int) -> int {
    if a >= b {
        a
    } else {
        b
    }
}

/// Number of bytes that an allocation of `layout` takes: its size rounded up
/// to a power of two, but no less than its alignment or than one machine
/// word.
pub open spec fn alloc_size_spec(layout: AllocLayout) -> int {
    max2(next_pow2(layout.size as int), max2(layout.align as int, size_of::<usize>() as int))
}

/// Tells whether `x` is a power of two.
pub fn is_power_of_two(x: usize) -> (r: bool)
    ensures
        r == is_pow2(x as int),
{
    if x == 0 {
        proof {
            reveal(is_pow2);
        }
        return false;
    }
    let mut y: usize = x;
    while y % 2 == 0
        invariant
            y > 0,
            is_pow2(y as int) == is_pow2(x as int),
        decreases y,
    {
        proof {
            reveal(is_pow2);
        }
        y = y / 2;
    }
    proof {
        reveal(is_pow2);
    }
    y == 1
}

/// The smallest power of two that is not below `n`.
pub fn next_power_of_two(n: usize) -> (r: usize)
    requires
        n <= usize::MAX / 2 + 1,
    ensures
        r == next_pow2(n as int),
        is_pow2(r as int),
        n <= r,
        1 <= n ==> r < 2 * n,
{
    proof {
        lemma_next_pow2(n as int);
    }
    let mut p: usize = 1;
    proof {
        reveal(is_pow2);
    }
    while p < n
        invariant
            n <= usize::MAX / 2 + 1,
            p >= 1,
            is_pow2(p as int),
            p == 1 || p < 2 * n,
        decreases usize::MAX - p,
    {
        proof {
            reveal(is_pow2);
        }
        p = p * 2;
    }
    proof {
        lemma_next_pow2_unique(n as int, p as int);
    }
    p
}

/// What an `EarlyAllocator` holds.
pub struct EarlyState {
    /// First address of the range.
    pub start: usize,
    /// First address behind the range.
    pub end: usize,
    /// First address that was not handed out yet.
    pub next: usize,
    /// Bytes that are allocated at present.
    pub used_bytes: usize,
    /// Pages that were allocated.
    pub used_pages: usize,
}

/// The state after `init`.
pub open spec fn init_state(start_vaddr: usize, size: usize) -> EarlyState {
    EarlyState {
        start: start_vaddr,
        end: (start_vaddr + size) as usize,
        next: start_vaddr,
        used_bytes: 0,
        used_pages: 0,
    }
}

/// An allocation of `layout` can be served: the aligned address can be
/// worked out, and the bytes behind it lie inside the range.
pub open spec fn alloc_fits(s: EarlyState, layout: AllocLayout) -> bool {
    &&& s.next + layout.align - 1 <= usize::MAX
    &&& align_up_spec(s.next, layout.align) + alloc_size_spec(layout) <= s.end
}

/// The state after an allocation of `layout` was served.
pub open spec fn alloc_state(s: EarlyState, layout: AllocLayout) -> EarlyState {
    EarlyState {
        next: (align_up_spec(s.next, layout.align) + alloc_size_spec(layout)) as usize,
        used_bytes: (s.used_bytes + alloc_size_spec(layout)) as usize,
        ..s
    }
}

/// The state after `size` bytes were freed: when no byte is left in use,
/// everything behind `start` is free again.
pub open spec fn dealloc_state(s: EarlyState, size: usize) -> EarlyState {
    let used = (s.used_bytes - size) as usize;
    EarlyState { used_bytes: used, next: if used == 0 { s.start } else { s.next }, ..s }
}

/// An alignment of pages is valid: it is a multiple of the page size, and
/// that multiple is a power of two.
pub open spec fn page_align_valid(page_size: usize, align_pow2: usize) -> bool {
    align_pow2 % page_size == 0 && is_pow2((align_pow2 / page_size) as int)
}

/// An allocation of `num_pages` pages can be served: the pages fit between
/// `next` and `end`, and the addresses and counters that result can be
/// held.
pub open spec fn alloc_pages_fits(
    s: EarlyState,
    page_size: usize,
    num_pages: usize,
    align_pow2: usize,
) -> bool {
    &&& s.next + num_pages * page_size <= s.end
    &&& s.next + align_pow2 - 1 <= usize::MAX
    &&& align_up_spec(s.next, align_pow2) + num_pages * page_size <= usize::MAX
    &&& s.used_pages + num_pages <= usize::MAX
}

/// The state after an allocation of `num_pages` pages was served.
pub open spec fn alloc_pages_state(
    s: EarlyState,
    page_size: usize,
    num_pages: usize,
    align_pow2: usize,
) -> EarlyState {
    EarlyState {
        next: (align_up_spec(s.next, align_pow2) + num_pages * page_size) as usize,
        used_pages: (s.used_pages + num_pages) as usize,
        ..s
    }
}

/// The range of `s` is not reversed, `next` is not below its start, and the
/// bytes in use lie between `start` and `next`.
pub open spec fn state_wf(s: EarlyState) -> bool {
    &&& s.start <= s.end
    &&& s.start <= s.next
    &&& s.used_bytes <= s.next - s.start
}

/// A bump allocator over one address range, with pages of `PAGE_SIZE` bytes.
pub struct EarlyAllocator<const PAGE_SIZE: usize> {
    start: usize,
    end: usize,
    next: usize,
    used_bytes: usize,
    used_pages: usize,
}

impl<const PAGE_SIZE: usize> View for EarlyAllocator<PAGE_SIZE> {
    type V = EarlyState;

    closed spec fn view(&self) -> EarlyState {
        EarlyState {
            start: self.start,
            end: self.end,
            next: self.next,
            used_bytes: self.used_bytes,
            used_pages: self.used_pages,
        }
    }
}

impl<const PAGE_SIZE: usize> EarlyAllocator<PAGE_SIZE> {
    /// The range is not reversed, `next` is not below its start, and the
    /// bytes in use lie between `start` and `next`.
    pub open spec fn wf(&self) -> bool {
        state_wf(self@)
    }

    /// An allocator that owns nothing yet.
    pub fn new() -> (a: Self)
        ensures
            a@ == init_state(0, 0),
            a.wf(),
    {
        Self { start: 0, end: 0, next: 0, used_bytes: 0, used_pages: 0 }
    }

    /// Hands the range of `size` bytes from `start_vaddr` on to the
    /// allocator and forgets what it held before.
    pub fn init(&mut self, start_vaddr: usize, size: usize)
        requires
            start_vaddr + size <= usize::MAX,
        ensures
            final(self)@ == init_state(start_vaddr, size),
            final(self).wf(),
    {
        let end: usize = start_vaddr + size;
        self.start = start_vaddr;
        self.end = end;
        self.next = start_vaddr;
        self.used_bytes = 0;
        self.used_pages = 0;
    }

    /// A bump allocator owns one range: a further range is accepted and
    /// left unused.
    pub fn add_memory(&mut self, _start_vaddr: usize, _size: usize) -> (r: Result<(), AllocError>)
        ensures
            r == Ok::<(), AllocError>(()),
            final(self)@ == old(self)@,
    {
        Ok(())
    }

    /// Allocates bytes of the given layout and returns their address.
    ///
    /// The bytes start at `next`, rounded up to the alignment. Where they
    /// do not fit into the range the allocator stays as it is.
    pub fn allocate(&mut self, layout: AllocLayout) -> (r: Result<usize, AllocError>)
        requires
            old(self).wf(),
            layout.wf(),
        ensures
            final(self).wf(),
            r is Ok <==> alloc_fits(old(self)@, layout),
            r matches Ok(addr) ==> addr == align_up_spec(old(self)@.next, layout.align)
                && final(self)@ == alloc_state(old(self)@, layout),
            r matches Ok(addr) ==> addr % layout.align == 0 && old(self)@.next <= addr && addr
                + layout.size <= final(self)@.next <= old(self)@.end,
            r matches Err(e) ==> e == AllocError::NoMemory && final(self)@ == old(self)@,
    {
        proof {
            lemma_layout_bounds(layout);
            lemma_next_pow2(layout.size as int);
        }
        let size: usize = self.calculate_alloc_size(layout);
        if layout.align - 1 > usize::MAX - self.next {
            return Err(AllocError::NoMemory);
        }
        let aligned_addr: usize = self.align_up(self.next, layout.align);
        if aligned_addr > self.end || size > self.end - aligned_addr {
            return Err(AllocError::NoMemory);
        }
        self.next = aligned_addr + size;
        self.used_bytes = self.used_bytes + size;
        Ok(aligned_addr)
    }

    /// Frees `layout.size` bytes. The address is not looked at: memory
    /// comes back only when no byte is in use any more, and then all of it.
    pub fn dealloc(&mut self, _addr: usize, layout: AllocLayout)
        requires
            old(self).wf(),
            layout.size <= old(self)@.used_bytes,
        ensures
            final(self).wf(),
            final(self)@ == dealloc_state(old(self)@, layout.size),
    {
        self.used_bytes = self.used_bytes - layout.size;
        if self.used_bytes == 0 {
            self.next = self.start;
        }
    }

    /// Number of bytes in the range.
    pub fn total_bytes(&self) -> (n: usize)
        requires
            self.wf(),
        ensures
            n == self@.end - self@.start,
    {
        self.end - self.start
    }

    /// Number of bytes that are allocated at present.
    pub fn used_bytes(&self) -> (n: usize)
        ensures
            n == self@.used_bytes,
    {
        self.used_bytes
    }

    /// Number of bytes between `next` and the end of the range.
    pub fn available_bytes(&self) -> (n: usize)
        requires
            self@.next <= self@.end,
        ensures
            n == self@.end - self@.next,
    {
        self.end - self.next
    }

    /// Tells whether `next` lies inside the range, so that what is
    /// available can be counted.
    pub fn next_in_range(&self) -> (r: bool)
        ensures
            r == (self@.next <= self@.end),
    {
        self.next <= self.end
    }

    /// Allocates `num_pages` pages and returns the address of the first.
    ///
    /// The pages are taken if they fit behind `next` as it stands. The
    /// address returned is `next` rounded up to `align_pow2`, which may place
    /// the last page behind the end of the range.
    pub fn alloc_pages(&mut self, num_pages: usize, align_pow2: usize) -> (r: Result<
        usize,
        AllocError,
    >)
        requires
            PAGE_SIZE > 0,
            old(self).wf(),
        ensures
            final(self).wf(),
            r is Ok <==> page_align_valid(PAGE_SIZE, align_pow2) && alloc_pages_fits(
                old(self)@,
                PAGE_SIZE,
                num_pages,
                align_pow2,
            ),
            r matches Ok(addr) ==> addr == align_up_spec(old(self)@.next, align_pow2)
                && final(self)@ == alloc_pages_state(
                old(self)@,
                PAGE_SIZE,
                num_pages,
                align_pow2,
            ),
            r matches Ok(addr) ==> old(self)@.next <= addr && (is_pow2(align_pow2 as int) ==> addr
                % align_pow2 == 0),
            r matches Err(e) ==> final(self)@ == old(self)@ && (e == AllocError::InvalidParam
                <==> !page_align_valid(PAGE_SIZE, align_pow2)) && (e == AllocError::NoMemory
                <==> page_align_valid(PAGE_SIZE, align_pow2)),
    {
        match self.validate_page_alloc_params(align_pow2) {
            Err(e) => {
                return Err(e);
            },
            Ok(()) => {},
        }
        proof {
            reveal(is_pow2);
            assert(align_pow2 >= 1) by (nonlinear_arith)
                requires
                    align_pow2 % PAGE_SIZE == 0,
                    (align_pow2 / PAGE_SIZE) as int >= 1,
                    PAGE_SIZE > 0,
            ;
        }
        let size: usize = match num_pages.checked_mul(PAGE_SIZE) {
            Some(s) => s,
            None => {
                return Err(AllocError::NoMemory);
            },
        };
        if self.next > self.end || size > self.end - self.next {
            return Err(AllocError::NoMemory);
        }
        if align_pow2 - 1 > usize::MAX - self.next {
            return Err(AllocError::NoMemory);
        }
        let aligned_addr: usize = self.align_up(self.next, align_pow2);
        if size > usize::MAX - aligned_addr || num_pages > usize::MAX - self.used_pages {
            return Err(AllocError::NoMemory);
        }
        self.next = aligned_addr + size;
        self.used_pages = self.used_pages + num_pages;
        Ok(aligned_addr)
    }

    /// Number of whole pages in the range.
    pub fn total_pages(&self) -> (n: usize)
        requires
            PAGE_SIZE > 0,
            self.wf(),
        ensures
            n == (self@.end - self@.start) / (PAGE_SIZE as int),
    {
        self.calculate_pages(self.end - self.start)
    }

    /// Number of pages that were allocated.
    pub fn used_pages(&self) -> (n: usize)
        ensures
            n == self@.used_pages,
    {
        self.used_pages
    }

    /// Number of whole pages between `next` and the end of the range.
    pub fn available_pages(&self) -> (n: usize)
        requires
            PAGE_SIZE > 0,
            self@.next <= self@.end,
        ensures
            n == (self@.end - self@.next) / (PAGE_SIZE as int),
    {
        self.calculate_pages(self.end - self.next)
    }

    /// Accepts an alignment of pages that is a multiple of the page size by
    /// a power of two.
    pub fn validate_page_alloc_params(&self, align_pow2: usize) -> (r: Result<(), AllocError>)
        requires
            PAGE_SIZE > 0,
        ensures
            r is Ok <==> page_align_valid(PAGE_SIZE, align_pow2),
            r matches Err(e) ==> e == AllocError::InvalidParam,
    {
        if align_pow2 % PAGE_SIZE != 0 {
            return Err(AllocError::InvalidParam);
        }
        let align_pow2: usize = align_pow2 / PAGE_SIZE;
        if !is_power_of_two(align_pow2) {
            return Err(AllocError::InvalidParam);
        }
        Ok(())
    }

    /// Number of whole pages in `bytes` bytes.
    pub fn calculate_pages(&self, bytes: usize) -> (n: usize)
        requires
            PAGE_SIZE > 0,
        ensures
            n == bytes / PAGE_SIZE,
    {
        bytes / PAGE_SIZE
    }

    /// Number of bytes that an allocation of `layout` takes.
    pub fn calculate_alloc_size(&self, layout: AllocLayout) -> (n: usize)
        requires
            layout.wf(),
        ensures
            n == alloc_size_spec(layout),
    {
        proof {
            lemma_layout_bounds(layout);
        }
        let word: usize = core::mem::size_of::<usize>();
        let rounded: usize = next_power_of_two(layout.size);
        let least: usize = if layout.align >= word {
            layout.align
        } else {
            word
        };
        if rounded >= least {
            rounded
        } else {
            least
        }
    }

    /// Rounds `addr` up with the mask of `align`.
    pub fn align_up(&self, addr: usize, align: usize) -> (r: usize)
        requires
            align >= 1,
            addr + align - 1 <= usize::MAX,
        ensures
            r == align_up_spec(addr, align),
            addr <= r,
            is_pow2(align as int) ==> r % align == 0 && r < addr + align,
    {
        proof {
            lemma_align_up_not_below(addr, align);
            if is_pow2(align as int) {
                lemma_align_up_pow2(addr, align);
            }
        }
        (addr + (align - 1)) & !(align - 1)
    }
}

/// The size of a valid layout leaves room for rounding up to a power of two,
/// and its alignment is at least one.
pub proof fn lemma_layout_bounds(layout: AllocLayout)
    requires
        layout.wf(),
    ensures
        layout.align >= 1,
        layout.size <= usize::MAX / 2 + 1,
        next_pow2(layout.size as int) <= usize::MAX / 2 + 1,
{
    reveal(is_pow2);
    let half: int = usize::MAX / 2 + 1;
    assert(isize::MAX == usize::MAX / 2);
    lemma_half_is_pow2();
    lemma_next_pow2_below(layout.size as int, half);
}

/// Half the address space, as a number of bytes, is a power of two.
proof fn lemma_half_is_pow2()
    ensures
        is_pow2(usize::MAX / 2 + 1),
{
    lemma2_to64();
    lemma2_to64_rest();
    lemma_pow_positive(2, 31);
    lemma_pow_positive(2, 63);
    assert(pow(2, 31) == 0x8000_0000);
    assert(pow(2, 63) == 0x8000_0000_0000_0000);
    is_pow2_equiv(0x8000_0000);
    is_pow2_equiv(0x8000_0000_0000_0000);
    assert(usize::MAX == 0xffff_ffff || usize::MAX == 0xffff_ffff_ffff_ffff);
}

/// `next_pow2(n)` is not above any power of two that is not below `n`.
pub proof fn lemma_next_pow2_below(n: int, p: int)
    requires
        is_pow2(p),
        n <= p,
    ensures
        next_pow2(n) <= p,
    decreases n,
{
    reveal(is_pow2);
    if n > 1 {
        lemma_next_pow2_below((n + 1) / 2, p / 2);
    }
}

/// Rounding up with the mask of a power of two gives the least multiple of
/// it that is not below the address.
pub proof fn lemma_align_up_pow2(addr: usize, align: usize)
    requires
        is_pow2(align as int),
        addr + align - 1 <= usize::MAX,
    ensures
        addr <= align_up_spec(addr, align) < addr + align,
        align_up_spec(addr, align) % align == 0,
{
    lemma_pow2_mask(align);
    let sum: usize = (addr + align - 1) as usize;
    let mask: usize = (align - 1) as usize;
    let r: usize = sum & !mask;
    assert(r >= addr && r - addr < align && r & mask == 0) by (bit_vector)
        requires
            align != 0,
            align & mask == 0,
            mask == align - 1,
            sum == addr + align - 1,
            r == sum & !mask,
    ;
    lemma_mask_zero_is_multiple(r, align);
}

/// A number that shares no bit with the predecessor of a power of two is a
/// multiple of that power.
pub proof fn lemma_mask_zero_is_multiple(x: usize, align: usize)
    requires
        is_pow2(align as int),
        x & ((align - 1) as usize) == 0,
    ensures
        x % align == 0,
    decreases align,
{
    reveal(is_pow2);
    if align > 1 {
        let half: usize = align / 2;
        let mask: usize = (align - 1) as usize;
        let half_mask: usize = (half - 1) as usize;
        let y: usize = x / 2;
        assert(x % 2 == 0 && y & half_mask == 0) by (bit_vector)
            requires
                align >= 2,
                align % 2 == 0,
                half == align / 2,
                mask == align - 1,
                half_mask == half - 1,
                y == x / 2,
                x & mask == 0,
        ;
        lemma_mask_zero_is_multiple(y, half);
        let q: int = y as int / half as int;
        assert(y == half * q) by (nonlinear_arith)
            requires
                y % half == 0,
                q == y as int / half as int,
                half > 0,
        ;
        assert(x == align * q) by (nonlinear_arith)
            requires
                x == 2 * y,
                y == half * q,
                align == 2 * half,
        ;
        assert(x % align == 0) by (nonlinear_arith)
            requires
                x == align * q,
                align > 0,
        ;
    }
}

/// Rounding up never gives an address below the one that was rounded,
/// whatever the alignment.
pub proof fn lemma_align_up_not_below(addr: usize, align: usize)
    requires
        align >= 1,
        addr + align - 1 <= usize::MAX,
    ensures
        addr <= align_up_spec(addr, align),
{
    let sum: usize = (addr + align - 1) as usize;
    let mask: usize = (align - 1) as usize;
    assert(sum & !mask >= addr) by (bit_vector)
        requires
            align >= 1,
            mask == align - 1,
            sum == addr + align - 1,
    ;
}

/// A power of two shares no bit with its predecessor.
pub proof fn lemma_pow2_mask(align: usize)
    requires
        is_pow2(align as int),
    ensures
        align != 0,
        align & ((align - 1) as usize) == 0,
    decreases align,
{
    reveal(is_pow2);
    if align == 1 {
        assert(1usize & 0usize == 0) by (bit_vector);
    } else {
        let half: usize = align / 2;
        lemma_pow2_mask(half);
        let hm: usize = (half - 1) as usize;
        let m: usize = (align - 1) as usize;
        assert(align & m == 0) by (bit_vector)
            requires
                align % 2 == 0,
                align >= 2,
                half == align / 2,
                hm == half - 1,
                m == align - 1,
                half & hm == 0,
        ;
    }
}

} // verus!
