use loader::apps::AppManager;
use loader::apps::AppRecord;
use loader::apps::ScanError;
use loader::config::BLOCK_SIZE;
use loader::config::MAX_APPS;
use loader::config::MAX_BLOCKS;
use loader::config::PROBE_SIZE;

fn flash_of(blocks: usize) -> Vec<u8> {
    vec![0u8; blocks * BLOCK_SIZE]
}

fn fill_block(flash: &mut [u8], block: usize, len: usize, seed: u8) {
    for i in 0..len {
        flash[block * BLOCK_SIZE + i] = ((i as u8) % 200).wrapping_add(seed) | 1;
    }
}

#[test]
fn constants_describe_the_flash_layout() {
    assert_eq!(BLOCK_SIZE, 1024 * 1024);
    assert_eq!(PROBE_SIZE, 1024);
    assert_eq!(MAX_APPS, 31);
    assert_eq!(MAX_BLOCKS, 32);
}

#[test]
fn new_table_is_empty() {
    let flash = flash_of(1);
    let manager = AppManager::new(&flash);
    assert_eq!(manager.apps_num(), 0);
    assert_eq!(manager.current_num(), 0);
    assert_eq!(manager.record(0), None);
}

#[test]
fn single_instruction_in_a_short_probe() {
    let mut flash = flash_of(2);
    flash[0] = 0x13;
    let mut manager = AppManager::with_probe_size(&flash, 4);
    assert_eq!(manager.search_app(), Ok(()));
    assert_eq!(manager.apps_num(), 1);
    assert_eq!(
        manager.record(0),
        Some(AppRecord { block_index: 0, scan_length: 4, true_length: 2 })
    );
    assert_eq!(manager.get_true_code(0), &[0x13, 0]);
    assert_eq!(manager.get_load_true(), &[0x13, 0]);
}

#[test]
fn single_instruction_in_a_standard_probe() {
    let mut flash = flash_of(2);
    flash[0] = 0x13;
    let mut manager = AppManager::new(&flash);
    assert_eq!(manager.search_app(), Ok(()));
    assert_eq!(manager.apps_num(), 1);
    assert_eq!(
        manager.record(0),
        Some(AppRecord { block_index: 0, scan_length: 1024, true_length: 8 })
    );
    assert_eq!(manager.get_load_true(), &[0x13, 0, 0, 0, 0, 0, 0, 0]);
}

#[test]
fn two_full_probes_give_two_records() {
    let mut flash = flash_of(3);
    fill_block(&mut flash, 0, 1024, 1);
    fill_block(&mut flash, 1, 1024, 3);
    let mut manager = AppManager::new(&flash);
    assert_eq!(manager.search_app(), Ok(()));
    assert_eq!(manager.apps_num(), 2);
    let first = manager.record(0).unwrap();
    let second = manager.record(1).unwrap();
    assert_eq!(first, AppRecord { block_index: 0, scan_length: 1024, true_length: 1024 });
    assert_eq!(second, AppRecord { block_index: 1, scan_length: 1024, true_length: 1024 });
    assert!(first.fills_probe());
    assert!(second.fills_probe());
    assert_eq!(manager.get_load_true(), &flash[..1024]);
    assert_eq!(manager.get_load_true(), &flash[BLOCK_SIZE..BLOCK_SIZE + 1024]);
    assert_eq!(manager.current_num(), 2);
}

#[test]
fn scan_stops_at_the_first_gap() {
    let mut flash = flash_of(8);
    fill_block(&mut flash, 0, 100, 1);
    fill_block(&mut flash, 1, 200, 2);
    fill_block(&mut flash, 2, 300, 3);
    fill_block(&mut flash, 4, 100, 4);
    fill_block(&mut flash, 5, 100, 5);
    let mut manager = AppManager::new(&flash);
    assert_eq!(manager.search_app(), Ok(()));
    assert_eq!(manager.apps_num(), 3);
    for i in 0..3 {
        assert_eq!(manager.record(i).unwrap().block_index, i);
    }
    assert_eq!(manager.record(3), None);
}

#[test]
fn records_carry_the_trimmed_length() {
    let mut flash = flash_of(4);
    fill_block(&mut flash, 0, 100, 1);
    fill_block(&mut flash, 1, 8, 2);
    fill_block(&mut flash, 2, 1000, 3);
    let mut manager = AppManager::new(&flash);
    assert_eq!(manager.search_app(), Ok(()));
    assert_eq!(manager.record(0).unwrap().true_length, 104);
    assert_eq!(manager.record(1).unwrap().true_length, 8);
    assert_eq!(manager.record(2).unwrap().true_length, 1000);
    assert!(!manager.record(0).unwrap().fills_probe());
    assert_eq!(manager.get_true_code(1), &flash[BLOCK_SIZE..BLOCK_SIZE + 8]);
    assert_eq!(manager.get_true_code(2), &flash[2 * BLOCK_SIZE..2 * BLOCK_SIZE + 1000]);
}

#[test]
fn empty_first_block_means_no_application() {
    let mut flash = flash_of(4);
    fill_block(&mut flash, 1, 64, 1);
    let mut manager = AppManager::new(&flash);
    assert_eq!(manager.search_app(), Ok(()));
    assert_eq!(manager.apps_num(), 0);
}

#[test]
fn data_behind_the_probe_does_not_occupy_a_block() {
    let mut flash = flash_of(2);
    flash[PROBE_SIZE] = 1;
    flash[BLOCK_SIZE - 1] = 1;
    let mut manager = AppManager::new(&flash);
    assert_eq!(manager.search_app(), Ok(()));
    assert_eq!(manager.apps_num(), 0);
}

#[test]
fn flash_shorter_than_a_probe_holds_nothing() {
    let flash = vec![1u8; 1023];
    let mut manager = AppManager::new(&flash);
    assert_eq!(manager.search_app(), Ok(()));
    assert_eq!(manager.apps_num(), 0);
    let empty: Vec<u8> = Vec::new();
    let mut manager = AppManager::new(&empty);
    assert_eq!(manager.search_app(), Ok(()));
    assert_eq!(manager.apps_num(), 0);
}

#[test]
fn scan_ends_where_flash_ends() {
    let mut flash = vec![0u8; BLOCK_SIZE + 1000];
    fill_block(&mut flash, 0, 16, 1);
    for byte in flash[BLOCK_SIZE..].iter_mut() {
        *byte = 7;
    }
    let mut manager = AppManager::new(&flash);
    assert_eq!(manager.search_app(), Ok(()));
    assert_eq!(manager.apps_num(), 1);
    let mut flash = vec![0u8; BLOCK_SIZE + 1024];
    fill_block(&mut flash, 0, 16, 1);
    for byte in flash[BLOCK_SIZE..].iter_mut() {
        *byte = 7;
    }
    let mut manager = AppManager::new(&flash);
    assert_eq!(manager.search_app(), Ok(()));
    assert_eq!(manager.apps_num(), 2);
}

#[test]
fn full_table_is_accepted() {
    let mut flash = flash_of(32);
    for block in 0..31 {
        fill_block(&mut flash, block, 32, block as u8);
    }
    let mut manager = AppManager::new(&flash);
    assert_eq!(manager.search_app(), Ok(()));
    assert_eq!(manager.apps_num(), 31);
    assert_eq!(manager.record(30).unwrap().block_index, 30);
}

#[test]
fn more_applications_than_the_table_holds_fail_the_scan() {
    let mut flash = flash_of(33);
    for block in 0..33 {
        fill_block(&mut flash, block, 32, block as u8);
    }
    let mut manager = AppManager::new(&flash);
    assert_eq!(manager.search_app(), Err(ScanError::CapacityExceeded));
    assert_eq!(manager.apps_num(), 0);
    assert_eq!(manager.current_num(), 0);
}

#[test]
fn scanning_twice_gives_the_same_table() {
    let mut small = flash_of(3);
    fill_block(&mut small, 0, 32, 1);
    fill_block(&mut small, 1, 32, 2);
    let mut manager = AppManager::new(&small);
    assert_eq!(manager.search_app(), Ok(()));
    assert_eq!(manager.search_app(), Ok(()));
    assert_eq!(manager.apps_num(), 2);
}

#[test]
fn images_are_handed_out_in_table_order() {
    let mut flash = flash_of(4);
    fill_block(&mut flash, 0, 24, 1);
    fill_block(&mut flash, 1, 40, 2);
    fill_block(&mut flash, 2, 56, 3);
    let mut manager = AppManager::new(&flash);
    assert_eq!(manager.search_app(), Ok(()));
    assert_eq!(manager.get_load_true(), &flash[..24]);
    assert_eq!(manager.current_num(), 1);
    assert_eq!(manager.get_load_true(), &flash[BLOCK_SIZE..BLOCK_SIZE + 40]);
    assert_eq!(manager.get_load_true(), &flash[2 * BLOCK_SIZE..2 * BLOCK_SIZE + 56]);
    assert_eq!(manager.current_num(), 3);
    assert_eq!(manager.get_load_true().len(), 0);
    assert_eq!(manager.current_num(), 4);
}

#[test]
fn no_record_means_an_empty_image() {
    let mut flash = flash_of(2);
    fill_block(&mut flash, 0, 24, 1);
    let mut manager = AppManager::new(&flash);
    assert_eq!(manager.search_app(), Ok(()));
    assert_eq!(manager.get_true_code(1).len(), 0);
    assert_eq!(manager.get_true_code(usize::MAX).len(), 0);
}

#[test]
fn cursor_moves_forward_by_one() {
    let flash = flash_of(1);
    let mut manager = AppManager::new(&flash);
    manager.current_forward();
    manager.current_forward();
    assert_eq!(manager.current_num(), 2);
}

#[test]
fn scan_leaves_the_cursor_alone() {
    let mut flash = flash_of(3);
    fill_block(&mut flash, 0, 24, 1);
    fill_block(&mut flash, 1, 24, 1);
    let mut manager = AppManager::new(&flash);
    manager.current_forward();
    assert_eq!(manager.search_app(), Ok(()));
    assert_eq!(manager.current_num(), 1);
    assert_eq!(manager.get_load_true(), &flash[BLOCK_SIZE..BLOCK_SIZE + 24]);
}

#[test]
fn block_with_a_window_at_its_start_is_an_empty_application() {
    let mut flash = flash_of(2);
    flash[100] = 1;
    let mut manager = AppManager::new(&flash);
    assert_eq!(manager.search_app(), Ok(()));
    assert_eq!(manager.apps_num(), 1);
    assert_eq!(manager.record(0).unwrap().true_length, 0);
    assert_eq!(manager.get_true_code(0).len(), 0);
}

#[test]
fn flash_offset_is_the_block_index_in_blocks() {
    let record = AppRecord { block_index: 3, scan_length: 1024, true_length: 10 };
    assert_eq!(record.flash_offset(), Some(3 * 1024 * 1024));
    let first = AppRecord { block_index: 0, scan_length: 1024, true_length: 10 };
    assert_eq!(first.flash_offset(), Some(0));
    let far = AppRecord { block_index: usize::MAX, scan_length: 1024, true_length: 10 };
    assert_eq!(far.flash_offset(), None);
}

#[test]
fn probe_size_zero_finds_nothing() {
    let flash = vec![1u8; 2 * BLOCK_SIZE];
    let mut manager = AppManager::with_probe_size(&flash, 0);
    assert_eq!(manager.search_app(), Ok(()));
    assert_eq!(manager.apps_num(), 0);
}
