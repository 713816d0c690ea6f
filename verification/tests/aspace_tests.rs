use loader::aspace::init_app_page_table;
use loader::aspace::root_index;
use loader::aspace::satp_setting;
use loader::aspace::superpage_entry;
use loader::aspace::switch_app_aspace;
use loader::aspace::AddressSpaceError;
use loader::aspace::SatpMode;
use loader::aspace::SatpSetting;
use loader::config::APP_PHYS_BASE;
use loader::config::APP_VIRT_BASE;
use loader::config::KERNEL_PHYS_BASE;
use loader::config::KERNEL_VIRT_BASE;
use loader::config::LOW_BASE;
use loader::config::PTE_FLAGS;
use loader::config::RUN_START;

#[test]
fn root_index_is_bits_30_to_38() {
    assert_eq!(root_index(LOW_BASE), 0);
    assert_eq!(root_index(APP_VIRT_BASE), 1);
    assert_eq!(root_index(KERNEL_PHYS_BASE), 2);
    assert_eq!(root_index(KERNEL_VIRT_BASE), 0x102);
    assert_eq!(root_index(RUN_START as u64), 1);
    assert_eq!(root_index(0x3fff_ffff), 0);
    assert_eq!(root_index(0xffff_ffff_ffff_ffff), 511);
    assert_eq!(root_index(0x0000_0080_0000_0000), 0);
}

#[test]
fn superpage_entry_holds_page_number_and_flags() {
    assert_eq!(superpage_entry(0x8000_0000, 0xef), 0x2000_00ef);
    assert_eq!(superpage_entry(0, 0xef), 0xef);
    assert_eq!(superpage_entry(0x4000_0000, 0x01), 0x1000_0001);
    assert_eq!(superpage_entry(KERNEL_PHYS_BASE, PTE_FLAGS), (0x80000 << 10) | 0xef);
    assert_eq!(superpage_entry(APP_PHYS_BASE, PTE_FLAGS), (0x80000 << 10) | 0xef);
}

#[test]
fn init_writes_the_four_mappings() {
    let mut table = [0u64; 512];
    init_app_page_table(&mut table);
    assert_eq!(table[2], (0x80000 << 10) | 0xef);
    assert_eq!(table[0x102], (0x80000 << 10) | 0xef);
    assert_eq!(table[0], 0xef);
    assert_eq!(table[1], (0x80000 << 10) | 0xef);
    for (i, entry) in table.iter().enumerate() {
        if i != 0 && i != 1 && i != 2 && i != 0x102 {
            assert_eq!(*entry, 0);
        }
    }
}

#[test]
fn init_keeps_the_other_entries() {
    let mut table = [0xdead_beef_u64; 512];
    init_app_page_table(&mut table);
    assert_eq!(table[0], 0xef);
    assert_eq!(table[1], 0x2000_00ef);
    assert_eq!(table[2], 0x2000_00ef);
    assert_eq!(table[0x102], 0x2000_00ef);
    assert_eq!(table[3], 0xdead_beef);
    assert_eq!(table[511], 0xdead_beef);
    let again = table;
    init_app_page_table(&mut table);
    assert_eq!(table, again);
}

#[test]
fn setting_holds_the_page_number_of_the_root() {
    assert_eq!(
        satp_setting(0x8020_3000, 0),
        Ok(SatpSetting { mode: SatpMode::Sv39, asid: 0, ppn: 0x80203 })
    );
    assert_eq!(
        satp_setting(0xffff_ffc0_8020_3000_u64 as usize, 0xffff_ffc0_0000_0000_u64 as usize),
        Ok(SatpSetting { mode: SatpMode::Sv39, asid: 0, ppn: 0x80203 })
    );
    assert_eq!(
        satp_setting(0x5000, 0x5000),
        Ok(SatpSetting { mode: SatpMode::Sv39, asid: 0, ppn: 0 })
    );
}

#[test]
fn setting_fails_for_a_table_below_the_offset() {
    assert_eq!(satp_setting(0x1000, 0x2000), Err(AddressSpaceError::ActivationFailure));
    assert_eq!(satp_setting(0, usize::MAX), Err(AddressSpaceError::ActivationFailure));
}

#[test]
fn setting_fails_for_a_table_off_the_page_grid() {
    assert_eq!(satp_setting(0x8020_3008, 0), Err(AddressSpaceError::ActivationFailure));
    assert_eq!(satp_setting(0x8020_3000, 0x10), Err(AddressSpaceError::ActivationFailure));
    assert_eq!(satp_setting(0x8020_3fff, 0), Err(AddressSpaceError::ActivationFailure));
}

#[test]
fn setting_fails_for_a_page_number_that_the_register_cannot_hold() {
    let top = 0xfff_ffff_ffff_u64 as usize;
    assert_eq!(
        satp_setting(top << 12, 0),
        Ok(SatpSetting { mode: SatpMode::Sv39, asid: 0, ppn: top })
    );
    assert_eq!(satp_setting((top + 1) << 12, 0), Err(AddressSpaceError::ActivationFailure));
    assert_eq!(satp_setting(usize::MAX & !0xfff, 0), Err(AddressSpaceError::ActivationFailure));
}

#[test]
fn switch_uses_the_offset_of_the_platform() {
    let offset = axconfig::plat::PHYS_VIRT_OFFSET;
    let aligned = offset.wrapping_add(0x8020_3000) & !0xfff;
    for &vaddr in [aligned, aligned + 8, offset, 0, 0x1000, usize::MAX & !0xfff].iter() {
        assert_eq!(switch_app_aspace(vaddr), satp_setting(vaddr, offset));
    }
}
