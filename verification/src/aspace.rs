//! The address space of a running application.
//!
//! An application runs under a root page table of `PT_ENTRIES` entries, each
//! of which maps one window of `SUPERPAGE_SIZE` bytes. Four windows are
//! mapped: the kernel window onto itself, the kernel window at its high
//! virtual base, the low window onto itself, and the application window onto
//! the memory that backs the running application. One table serves every
//! application in turn.

use vstd::prelude::*;
use crate::config::APP_PHYS_BASE;
use crate::config::APP_VIRT_BASE;
use crate::config::KERNEL_PHYS_BASE;
use crate::config::KERNEL_VIRT_BASE;
use crate::config::LOW_BASE;
use crate::config::PAGE_SIZE;
use crate::config::PTE_FLAGS;
use crate::config::PT_ENTRIES;
use crate::config::SATP_PPN_MAX;
use crate::config::SUPERPAGE_SIZE;

verus! {

/// Index of the root-table entry that translates `vaddr`.
pub open spec fn root_index_spec(vaddr: u64) -> int {
    ((vaddr >> 30) & 0x1ff) as int
}

/// The entry that maps a window onto the physical window at `paddr`.
pub open spec fn superpage_entry_spec(paddr: u64, flags: u64) -> u64 {
    ((paddr >> 12) << 10) | flags
}

/// The entry is valid and maps a window rather than pointing to a further
/// table: one of its read, write and execute bits is set.
pub open spec fn entry_maps(entry: u64) -> bool {
    entry & 0x1 == 0x1 && entry & 0xe != 0
}

/// Physical base of the window that `entry` maps.
pub open spec fn entry_base(entry: u64) -> u64 {
    (((entry >> 10) & 0xfff_ffff_ffff) << 12)
}

/// Physical address that `table` gives for `vaddr`, if the window of `vaddr`
/// is mapped.
pub open spec fn translate(table: Seq<u64>, vaddr: u64) -> Option<int> {
    let entry = table[root_index_spec(vaddr)];
    if entry_maps(entry) {
        Some(entry_base(entry) + (vaddr & 0x3fff_ffff))
    } else {
        None
    }
}

/// `table` holds the four mappings of an application's address space.
pub open spec fn maps_app_space(table: Seq<u64>) -> bool {
    &&& table.len() == PT_ENTRIES
    &&& table[root_index_spec(KERNEL_PHYS_BASE)] == superpage_entry_spec(
        KERNEL_PHYS_BASE,
        PTE_FLAGS,
    )
    &&& table[root_index_spec(KERNEL_VIRT_BASE)] == superpage_entry_spec(
        KERNEL_PHYS_BASE,
        PTE_FLAGS,
    )
    &&& table[root_index_spec(LOW_BASE)] == superpage_entry_spec(LOW_BASE, PTE_FLAGS)
    &&& table[root_index_spec(APP_VIRT_BASE)] == superpage_entry_spec(APP_PHYS_BASE, PTE_FLAGS)
}

/// The table after `init_app_page_table`: four entries are written, the
/// others keep what they held.
pub open spec fn init_spec(table: Seq<u64>) -> Seq<u64> {
    table.update(
        root_index_spec(KERNEL_PHYS_BASE),
        superpage_entry_spec(KERNEL_PHYS_BASE, PTE_FLAGS),
    ).update(
        root_index_spec(KERNEL_VIRT_BASE),
        superpage_entry_spec(KERNEL_PHYS_BASE, PTE_FLAGS),
    ).update(root_index_spec(LOW_BASE), superpage_entry_spec(LOW_BASE, PTE_FLAGS)).update(
        root_index_spec(APP_VIRT_BASE),
        superpage_entry_spec(APP_PHYS_BASE, PTE_FLAGS),
    )
}

/// The four windows lie in four different entries of the root table.
pub proof fn lemma_root_indices()
    ensures
        root_index_spec(LOW_BASE) == 0,
        root_index_spec(APP_VIRT_BASE) == 1,
        root_index_spec(KERNEL_PHYS_BASE) == 2,
        root_index_spec(KERNEL_VIRT_BASE) == 0x102,
{
    assert((0u64 >> 30) & 0x1ff == 0) by (bit_vector);
    assert((0x4000_0000u64 >> 30) & 0x1ff == 1) by (bit_vector);
    assert((0x8000_0000u64 >> 30) & 0x1ff == 2) by (bit_vector);
    assert((0xffff_ffc0_8000_0000u64 >> 30) & 0x1ff == 0x102) by (bit_vector);
}

/// What the four mappings mean for an address `offset` bytes into a window:
/// the kernel window and the low window translate to themselves, the high
/// kernel window translates to the kernel window, and the application window
/// translates to the memory that backs the application.
pub proof fn lemma_app_space_translation(table: Seq<u64>, offset: u64)
    requires
        maps_app_space(table),
        offset < SUPERPAGE_SIZE,
    ensures
        translate(table, (KERNEL_PHYS_BASE + offset) as u64) == Some(KERNEL_PHYS_BASE + offset),
        translate(table, (KERNEL_VIRT_BASE + offset) as u64) == Some(KERNEL_PHYS_BASE + offset),
        translate(table, (LOW_BASE + offset) as u64) == Some(LOW_BASE + offset),
        translate(table, (APP_VIRT_BASE + offset) as u64) == Some(APP_PHYS_BASE + offset),
{
    lemma_root_indices();
    let k: u64 = 0x2000_00ef;
    let l: u64 = 0xef;
    assert(((0x8000_0000u64 >> 12) << 10) | 0xef == 0x2000_00ef) by (bit_vector);
    assert(((0u64 >> 12) << 10) | 0xef == 0xef) by (bit_vector);
    assert(k & 0x1 == 0x1 && k & 0xe != 0 && (((k >> 10) & 0xfff_ffff_ffff) << 12)
        == 0x8000_0000) by (bit_vector)
        requires
            k == 0x2000_00ef,
    ;
    assert(l & 0x1 == 0x1 && l & 0xe != 0 && (((l >> 10) & 0xfff_ffff_ffff) << 12) == 0)
        by (bit_vector)
        requires
            l == 0xef,
    ;
    let kp: u64 = (KERNEL_PHYS_BASE + offset) as u64;
    let kv: u64 = (KERNEL_VIRT_BASE + offset) as u64;
    let ap: u64 = (APP_VIRT_BASE + offset) as u64;
    assert(((kp >> 30) & 0x1ff) == 2 && (kp & 0x3fff_ffff) == offset) by (bit_vector)
        requires
            offset < 0x4000_0000,
            kp == 0x8000_0000u64 + offset,
    ;
    assert(((kv >> 30) & 0x1ff) == 0x102 && (kv & 0x3fff_ffff) == offset) by (bit_vector)
        requires
            offset < 0x4000_0000,
            kv == 0xffff_ffc0_8000_0000u64 + offset,
    ;
    assert(((offset >> 30) & 0x1ff) == 0 && (offset & 0x3fff_ffff) == offset) by (bit_vector)
        requires
            offset < 0x4000_0000,
    ;
    assert(((ap >> 30) & 0x1ff) == 1 && (ap & 0x3fff_ffff) == offset) by (bit_vector)
        requires
            offset < 0x4000_0000,
            ap == 0x4000_0000u64 + offset,
    ;
}

/// A fresh or reused table holds the four mappings once it is initialised.
pub proof fn lemma_init_maps_app_space(table: Seq<u64>)
    requires
        table.len() == PT_ENTRIES,
    ensures
        maps_app_space(init_spec(table)),
{
    lemma_root_indices();
}

/// A table that was empty before it was initialised maps the four windows
/// and nothing else.
pub proof fn lemma_fresh_table_maps_nothing_else(table: Seq<u64>, vaddr: u64)
    requires
        table.len() == PT_ENTRIES,
        forall|i: int| 0 <= i < PT_ENTRIES ==> table[i] == 0,
        root_index_spec(vaddr) != root_index_spec(LOW_BASE),
        root_index_spec(vaddr) != root_index_spec(APP_VIRT_BASE),
        root_index_spec(vaddr) != root_index_spec(KERNEL_PHYS_BASE),
        root_index_spec(vaddr) != root_index_spec(KERNEL_VIRT_BASE),
    ensures
        translate(init_spec(table), vaddr) is None,
{
    lemma_root_indices();
    assert(((vaddr >> 30) & 0x1ff) < 512) by (bit_vector);
    assert(0u64 & 0x1 != 0x1) by (bit_vector);
}

/// Index of the root-table entry that translates `vaddr`.
pub fn root_index(vaddr: u64) -> (r: usize)
    ensures
        r == root_index_spec(vaddr),
        r < PT_ENTRIES,
{
    let index: u64 = (vaddr >> 30) & 0x1ff;
    assert(((vaddr >> 30) & 0x1ff) < 512) by (bit_vector);
    index as usize
}

/// The entry that maps a window onto the physical window at `paddr`.
pub fn superpage_entry(paddr: u64, flags: u64) -> (r: u64)
    ensures
        r == superpage_entry_spec(paddr, flags),
{
    ((paddr >> 12) << 10) | flags
}

/// Writes the four mappings of an application's address space into `table`.
/// The other entries keep what they held.
pub fn init_app_page_table(table: &mut [u64; PT_ENTRIES])
    ensures
        final(table)@ == init_spec(old(table)@),
        maps_app_space(final(table)@),
{
    proof {
        lemma_init_maps_app_space(table@);
    }
    table[root_index(KERNEL_PHYS_BASE)] = superpage_entry(KERNEL_PHYS_BASE, PTE_FLAGS);
    table[root_index(KERNEL_VIRT_BASE)] = superpage_entry(KERNEL_PHYS_BASE, PTE_FLAGS);
    table[root_index(LOW_BASE)] = superpage_entry(LOW_BASE, PTE_FLAGS);
    table[root_index(APP_VIRT_BASE)] = superpage_entry(APP_PHYS_BASE, PTE_FLAGS);
}

/// Translation scheme that the translation register selects.
#[derive(Clone, Copy, Debug, PartialEq, Eq, Structural)]
pub enum SatpMode {
    /// Three-level translation of 39-bit virtual addresses.
    Sv39,
}

/// What has to be written to the translation register to make a table the
/// active one.
#[derive(Clone, Copy, Debug, PartialEq, Eq, Structural)]
pub struct SatpSetting {
    /// Translation scheme.
    pub mode: SatpMode,
    /// Address-space identifier.
    pub asid: usize,
    /// Physical page number of the root table.
    pub ppn: usize,
}

/// Why an address space cannot be made the active one.
#[derive(Clone, Copy, Debug, PartialEq, Eq, Structural)]
pub enum AddressSpaceError {
    /// The root table does not lie at a page boundary of physical memory
    /// that the translation register can name.
    ActivationFailure,
}

/// The physical address of the table at `table_vaddr` exists, is a page
/// boundary, and has a page number that the translation register can hold.
pub open spec fn root_is_installable(table_vaddr: usize, phys_virt_offset: usize) -> bool {
    &&& table_vaddr >= phys_virt_offset
    &&& (table_vaddr - phys_virt_offset) % (PAGE_SIZE as int) == 0
    &&& (table_vaddr - phys_virt_offset) / (PAGE_SIZE as int) <= SATP_PPN_MAX
}

/// What `satp_setting` gives.
pub open spec fn satp_setting_spec(table_vaddr: usize, phys_virt_offset: usize) -> Result<
    SatpSetting,
    AddressSpaceError,
> {
    if root_is_installable(table_vaddr, phys_virt_offset) {
        Ok(
            SatpSetting {
                mode: SatpMode::Sv39,
                asid: 0,
                ppn: ((table_vaddr - phys_virt_offset) / (PAGE_SIZE as int)) as usize,
            },
        )
    } else {
        Err(AddressSpaceError::ActivationFailure)
    }
}

/// Works out the register setting that makes the table at virtual address
/// `table_vaddr` the active one, where the kernel sees physical memory
/// `phys_virt_offset` bytes above its physical address.
pub fn satp_setting(table_vaddr: usize, phys_virt_offset: usize) -> (r: Result<
    SatpSetting,
    AddressSpaceError,
>)
    ensures
        r == satp_setting_spec(table_vaddr, phys_virt_offset),
{
    if table_vaddr < phys_virt_offset {
        return Err(AddressSpaceError::ActivationFailure);
    }
    let page_table_root: usize = table_vaddr - phys_virt_offset;
    if page_table_root % PAGE_SIZE != 0 {
        return Err(AddressSpaceError::ActivationFailure);
    }
    let ppn: usize = page_table_root / PAGE_SIZE;
    if ppn as u64 > SATP_PPN_MAX {
        return Err(AddressSpaceError::ActivationFailure);
    }
    Ok(SatpSetting { mode: SatpMode::Sv39, asid: 0, ppn })
}

/// Reads `axconfig::plat::PHYS_VIRT_OFFSET`: the distance from a physical
/// address to the virtual address at which the kernel sees it. The value
/// belongs to the platform that the kernel was configured for, so nothing is
/// claimed of it.
#[verifier::external_body]
fn phys_virt_offset() -> (offset: usize) {
    axconfig::plat::PHYS_VIRT_OFFSET
}

/// Works out the register setting that makes the table at virtual address
/// `table_vaddr` the active one on the platform that the kernel was
/// configured for. The caller writes the setting to the translation register
/// and flushes the address translation caches.
///
/// The setting is the one that `satp_setting` gives for the platform's
/// distance between physical and virtual addresses.
pub fn switch_app_aspace(table_vaddr: usize) -> (r: Result<SatpSetting, AddressSpaceError>)
    ensures
        exists|offset: usize| r == satp_setting_spec(table_vaddr, offset),
        r matches Ok(s) ==> s.mode == SatpMode::Sv39 && s.asid == 0 && s.ppn <= table_vaddr
            / PAGE_SIZE && s.ppn <= SATP_PPN_MAX,
        r matches Err(e) ==> e == AddressSpaceError::ActivationFailure,
{
    let offset: usize = phys_virt_offset();
    let r = satp_setting(table_vaddr, offset);
    assert(r == satp_setting_spec(table_vaddr, offset));
    r
}

} // verus!
