//! The kernel's allocator: one bump allocator with pages of `PAGE_SIZE`
//! bytes. The kernel keeps a single instance of it and guards it with a lock
//! of its own.

use vstd::prelude::*;
use crate::config::PAGE_SIZE;
use crate::early::alloc_fits;
use crate::early::alloc_pages_fits;
use crate::early::alloc_pages_state;
use crate::early::alloc_state;
use crate::early::align_up_spec;
use crate::early::dealloc_state;
use crate::early::init_state;
use crate::early::page_align_valid;
use crate::early::state_wf;
use crate::early::AllocError;
use crate::early::AllocLayout;
use crate::early::EarlyAllocator;
use crate::early::EarlyState;

verus! {

/// The kernel's allocator.
pub struct GlobalAllocator {
    inner: EarlyAllocator<PAGE_SIZE>,
}

impl View for GlobalAllocator {
    type V = EarlyState;

    closed spec fn view(&self) -> EarlyState {
        self.inner@
    }
}

impl GlobalAllocator {
    /// The range is not reversed, `next` is not below its start, and the
    /// bytes in use lie between `start` and `next`.
    pub open spec fn wf(&self) -> bool {
        state_wf(self@)
    }

    /// An allocator that owns nothing yet.
    pub fn new() -> (a: Self)
        ensures
            a@ == init_state(0, 0),
            a.wf(),
    {
        Self { inner: EarlyAllocator::new() }
    }

    /// Name of the allocation scheme.
    pub fn name(&self) -> (r: &'static str)
        ensures
            r@ == "early"@,
    {
        "early"
    }

    /// Hands the range of `size` bytes from `start_vaddr` on to the
    /// allocator.
    pub fn init(&mut self, start_vaddr: usize, size: usize)
        requires
            start_vaddr + size <= usize::MAX,
        ensures
            final(self)@ == init_state(start_vaddr, size),
            final(self).wf(),
    {
        self.inner.init(start_vaddr, size);
    }

    /// Allocates bytes of the given layout and returns their address.
    pub fn allocate(&mut self, layout: AllocLayout) -> (r: Result<usize, AllocError>)
        requires
            old(self).wf(),
            layout.wf(),
        ensures
            final(self).wf(),
            r is Ok <==> alloc_fits(old(self)@, layout),
            r matches Ok(addr) ==> addr == align_up_spec(old(self)@.next, layout.align)
                && final(self)@ == alloc_state(old(self)@, layout),
            r matches Err(e) ==> e == AllocError::NoMemory && final(self)@ == old(self)@,
    {
        self.inner.allocate(layout)
    }

    /// Frees `layout.size` bytes.
    pub fn dealloc(&mut self, addr: usize, layout: AllocLayout)
        requires
            old(self).wf(),
            layout.size <= old(self)@.used_bytes,
        ensures
            final(self).wf(),
            final(self)@ == dealloc_state(old(self)@, layout.size),
    {
        self.inner.dealloc(addr, layout)
    }

    /// Allocates `num_pages` pages and returns the address of the first.
    pub fn alloc_pages(&mut self, num_pages: usize, align_pow2: usize) -> (r: Result<
        usize,
        AllocError,
    >)
        requires
            old(self).wf(),
        ensures
            final(self).wf(),
            r is Ok <==> page_align_valid(PAGE_SIZE, align_pow2) && alloc_pages_fits(
                old(self)@,
                PAGE_SIZE,
                num_pages,
                align_pow2,
            ),
            r matches Ok(addr) ==> addr == align_up_spec(old(self)@.next, align_pow2)
                && final(self)@ == alloc_pages_state(
                old(self)@,
                PAGE_SIZE,
                num_pages,
                align_pow2,
            ),
            r matches Err(e) ==> final(self)@ == old(self)@ && (e == AllocError::InvalidParam
                <==> !page_align_valid(PAGE_SIZE, align_pow2)) && (e == AllocError::NoMemory
                <==> page_align_valid(PAGE_SIZE, align_pow2)),
    {
        self.inner.alloc_pages(num_pages, align_pow2)
    }

    /// Number of bytes that are allocated at present.
    pub fn used_bytes(&self) -> (n: usize)
        ensures
            n == self@.used_bytes,
    {
        self.inner.used_bytes()
    }

    /// Number of bytes between `next` and the end of the range.
    pub fn available_bytes(&self) -> (n: usize)
        requires
            self@.next <= self@.end,
        ensures
            n == self@.end - self@.next,
    {
        self.inner.available_bytes()
    }

    /// Number of pages that were allocated.
    pub fn used_pages(&self) -> (n: usize)
        ensures
            n == self@.used_pages,
    {
        self.inner.used_pages()
    }

    /// Number of whole pages between `next` and the end of the range.
    pub fn available_pages(&self) -> (n: usize)
        requires
            self@.next <= self@.end,
        ensures
            n == (self@.end - self@.next) / (PAGE_SIZE as int),
    {
        self.inner.available_pages()
    }

    /// Tells whether `next` lies inside the range, so that what is
    /// available can be counted.
    pub fn next_in_range(&self) -> (r: bool)
        ensures
            r == (self@.next <= self@.end),
    {
        self.inner.next_in_range()
    }
}

/// Initialises the kernel's allocator with the range of `size` bytes from
/// `start_vaddr` on. The range is only a pair of numbers here: that the
/// memory exists and is free is up to the caller.
pub fn global_init(allocator: &mut GlobalAllocator, start_vaddr: usize, size: usize)
    requires
        start_vaddr + size <= usize::MAX,
    ensures
        final(allocator)@ == init_state(start_vaddr, size),
        final(allocator).wf(),
{
    allocator.init(start_vaddr, size);
}

} // verus!
