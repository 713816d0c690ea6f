use loader::abi::AbiError;
use loader::abi::AbiTable;
use loader::config::ABI_TABLE_LEN;
use loader::config::SYS_HELLO;
use loader::config::SYS_PUTCHAR;
use loader::config::SYS_TERMINATE;

#[test]
fn new_table_is_open_and_zero() {
    let table = AbiTable::new();
    assert!(!table.is_sealed());
    for num in 0..ABI_TABLE_LEN {
        assert_eq!(table.get(num), Some(0));
    }
    assert_eq!(table.get(ABI_TABLE_LEN), None);
    assert_eq!(table.slots(), &[0usize; 16]);
}

#[test]
fn slot_numbers_follow_the_convention() {
    assert_eq!(SYS_HELLO, 1);
    assert_eq!(SYS_PUTCHAR, 2);
    assert_eq!(SYS_TERMINATE, 3);
    assert_eq!(ABI_TABLE_LEN, 16);
}

#[test]
fn register_writes_one_slot() {
    let mut table = AbiTable::new();
    assert_eq!(table.register(SYS_HELLO, 0x8020_0000), Ok(()));
    assert_eq!(table.register(SYS_PUTCHAR, 0x8020_0100), Ok(()));
    assert_eq!(table.register(SYS_TERMINATE, 0x8020_0200), Ok(()));
    assert_eq!(table.get(SYS_HELLO), Some(0x8020_0000));
    assert_eq!(table.get(SYS_PUTCHAR), Some(0x8020_0100));
    assert_eq!(table.get(SYS_TERMINATE), Some(0x8020_0200));
    assert_eq!(table.get(0), Some(0));
    assert_eq!(table.get(4), Some(0));
    let mut expected = [0usize; 16];
    expected[1] = 0x8020_0000;
    expected[2] = 0x8020_0100;
    expected[3] = 0x8020_0200;
    assert_eq!(table.slots(), &expected);
}

#[test]
fn register_overwrites_an_open_slot() {
    let mut table = AbiTable::new();
    assert_eq!(table.register(5, 1), Ok(()));
    assert_eq!(table.register(5, 2), Ok(()));
    assert_eq!(table.get(5), Some(2));
}

#[test]
fn register_turns_down_a_number_without_slot() {
    let mut table = AbiTable::new();
    assert_eq!(table.register(16, 1), Err(AbiError::BadNumber));
    assert_eq!(table.register(usize::MAX, 1), Err(AbiError::BadNumber));
    assert_eq!(table.slots(), &[0usize; 16]);
    assert_eq!(table.register(15, 1), Ok(()));
    assert_eq!(table.get(15), Some(1));
}

#[test]
fn sealed_table_turns_registration_down() {
    let mut table = AbiTable::new();
    assert_eq!(table.register(SYS_HELLO, 0x1000), Ok(()));
    table.seal();
    assert!(table.is_sealed());
    let before = *table.slots();
    assert_eq!(table.register(SYS_PUTCHAR, 0x2000), Err(AbiError::Sealed));
    assert_eq!(table.register(SYS_HELLO, 0x3000), Err(AbiError::Sealed));
    assert_eq!(table.register(99, 0x3000), Err(AbiError::Sealed));
    assert_eq!(table.slots(), &before);
    assert_eq!(table.get(SYS_HELLO), Some(0x1000));
    assert_eq!(table.get(SYS_PUTCHAR), Some(0));
}

#[test]
fn sealing_twice_changes_nothing() {
    let mut table = AbiTable::new();
    assert_eq!(table.register(7, 70), Ok(()));
    table.seal();
    table.seal();
    assert!(table.is_sealed());
    assert_eq!(table.get(7), Some(70));
}
