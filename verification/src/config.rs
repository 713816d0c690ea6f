//! Layout constants of the loader. Every tunable of the flash format and of
//! the run-time layout is named here.

use vstd::prelude::*;

verus! {

/// Physical address at which the flash region begins.
pub const PFLASH_START: usize = 0x2200_0000;

/// Size of one flash block. An image always starts at a block boundary.
pub const BLOCK_SIZE: usize = 0x10_0000;

/// Number of flash blocks that a scan walks at most.
pub const MAX_BLOCKS: usize = 32;

/// Capacity of the application table.
pub const MAX_APPS: usize = 31;

/// Number of bytes read at the start of a block to decide whether it holds an
/// image and how long that image is.
pub const PROBE_SIZE: usize = 1024;

/// Length of the all-zero window that marks the end of an image. Windows are
/// examined at offsets that are multiples of this length.
pub const SENTINEL_LEN: usize = 8;

/// Length of the short probe that holds one instruction slot.
pub const SHORT_PROBE_LEN: usize = 4;

/// Length of the image in a short probe whose upper half is zero.
pub const SHORT_IMAGE_LEN: usize = 2;

/// Virtual address at which every application is placed and entered.
pub const RUN_START: usize = 0x4010_0000;

/// Number of slots in the table of kernel entry points.
pub const ABI_TABLE_LEN: usize = 16;

/// Slot of the greeting entry point.
pub const SYS_HELLO: usize = 1;

/// Slot of the entry point that prints one character.
pub const SYS_PUTCHAR: usize = 2;

/// Slot of the entry point that ends the boot session.
pub const SYS_TERMINATE: usize = 3;

/// Number of entries in the root page table.
pub const PT_ENTRIES: usize = 512;

/// Bytes covered by one entry of the root page table.
pub const SUPERPAGE_SIZE: u64 = 0x4000_0000;

/// Entry flags of every mapping: valid, readable, writable, executable,
/// global, accessed, dirty.
pub const PTE_FLAGS: u64 = 0xef;

/// Physical base of the window that holds the kernel.
pub const KERNEL_PHYS_BASE: u64 = 0x8000_0000;

/// Virtual base at which the kernel window is mapped a second time.
pub const KERNEL_VIRT_BASE: u64 = 0xffff_ffc0_8000_0000;

/// Base of the low window, mapped onto itself.
pub const LOW_BASE: u64 = 0;

/// Virtual base of the window in which an application runs.
pub const APP_VIRT_BASE: u64 = 0x4000_0000;

/// Physical base of the window that backs a running application.
pub const APP_PHYS_BASE: u64 = 0x8000_0000;

/// Bytes in one page: the granule of a page-table root.
pub const PAGE_SIZE: usize = 0x1000;

/// Largest physical page number that the translation register can hold.
pub const SATP_PPN_MAX: u64 = 0xfff_ffff_ffff;

} // verus!
