use loader::dtb::open_dtb;
use loader::dtb::parse_dtb;
use loader::dtb::parse_memory_info;
use loader::dtb::parse_mmio_regions;
use loader::dtb::stated_size;
use loader::dtb::DeviceTree;
use loader::dtb::DtbInfo;
use loader::dtb::RegNode;
use loader::endian::read_be_u32;
use loader::endian::read_be_u64;

fn reg(addr: u64, size: u64) -> Vec<u8> {
    let mut bytes = addr.to_be_bytes().to_vec();
    bytes.extend_from_slice(&size.to_be_bytes());
    bytes
}

fn node(addr: u64, size: u64) -> RegNode {
    RegNode { reg: Some(reg(addr, size)) }
}

fn tree(memory: Option<RegNode>, virtio_mmio: Vec<RegNode>) -> DeviceTree {
    DeviceTree { memory, virtio_mmio }
}

#[test]
fn big_endian_words_are_read_at_an_offset() {
    let bytes = [0xff, 0, 0, 0, 0, 0x80, 0, 0, 0, 0x01, 0x02, 0x03, 0x04, 0x05, 0x06, 0x07, 0x08];
    assert_eq!(read_be_u64(&bytes, 1), 0x8000_0000);
    assert_eq!(read_be_u64(&bytes, 9), 0x0102_0304_0506_0708);
    assert_eq!(read_be_u64(&bytes, 0), 0xff00_0000_0080_0000);
}

#[test]
fn layout_is_built_from_its_parts() {
    let info = DtbInfo::new(0x8000_0000, 0x800_0000, vec![(0x1000_1000, 0x1000)]);
    assert_eq!(info.memory_addr, 0x8000_0000);
    assert_eq!(info.memory_size, 0x800_0000);
    assert_eq!(info.mmio_regions, vec![(0x1000_1000, 0x1000)]);
}

#[test]
fn memory_is_read_from_the_reg_property() {
    let t = tree(Some(node(0x8000_0000, 0x800_0000)), Vec::new());
    assert_eq!(parse_memory_info(&t), Ok((0x8000_0000, 0x800_0000)));
}

#[test]
fn bytes_behind_the_first_pair_are_ignored() {
    let mut bytes = reg(0x4000_0000, 0x1000);
    bytes.extend_from_slice(&reg(0x9000_0000, 0x2000));
    let t = tree(Some(RegNode { reg: Some(bytes) }), Vec::new());
    assert_eq!(parse_memory_info(&t), Ok((0x4000_0000, 0x1000)));
}

#[test]
fn missing_memory_node_is_reported() {
    let t = tree(None, vec![node(0x1000_1000, 0x1000)]);
    assert_eq!(parse_memory_info(&t), Err("Memory node not found"));
    assert_eq!(parse_dtb(&t).err(), Some("Memory node not found"));
}

#[test]
fn memory_node_without_reg_is_reported() {
    let t = tree(Some(RegNode { reg: None }), Vec::new());
    assert_eq!(parse_memory_info(&t), Err("Memory region not found"));
    assert_eq!(parse_dtb(&t).err(), Some("Memory region not found"));
}

#[test]
fn short_memory_reg_is_reported() {
    let mut bytes = reg(0x8000_0000, 0x800_0000);
    bytes.pop();
    let t = tree(Some(RegNode { reg: Some(bytes) }), Vec::new());
    assert_eq!(parse_memory_info(&t), Err("Failed to convert memory address bytes"));
    let t = tree(Some(RegNode { reg: Some(Vec::new()) }), Vec::new());
    assert_eq!(parse_memory_info(&t), Err("Failed to convert memory address bytes"));
}

#[test]
fn devices_are_read_in_tree_order() {
    let t = tree(
        None,
        vec![node(0x1000_8000, 0x1000), node(0x1000_7000, 0x1000), node(0x1000_6000, 0x200)],
    );
    assert_eq!(
        parse_mmio_regions(&t),
        Ok(vec![(0x1000_8000, 0x1000), (0x1000_7000, 0x1000), (0x1000_6000, 0x200)])
    );
}

#[test]
fn tree_without_devices_has_no_regions() {
    let t = tree(None, Vec::new());
    assert_eq!(parse_mmio_regions(&t), Ok(Vec::new()));
}

#[test]
fn device_without_reg_is_reported() {
    let t = tree(None, vec![node(0x1000_8000, 0x1000), RegNode { reg: None }]);
    assert_eq!(parse_mmio_regions(&t), Err("Virtio_mmio region not found"));
}

#[test]
fn short_device_reg_is_reported() {
    let t = tree(None, vec![RegNode { reg: Some(vec![0u8; 15]) }]);
    assert_eq!(parse_mmio_regions(&t), Err("Failed to convert memory address bytes"));
}

#[test]
fn first_bad_device_decides_the_message() {
    let t = tree(
        None,
        vec![
            node(0x1000_8000, 0x1000),
            RegNode { reg: Some(vec![0u8; 3]) },
            RegNode { reg: None },
        ],
    );
    assert_eq!(parse_mmio_regions(&t), Err("Failed to convert memory address bytes"));
    let t = tree(
        None,
        vec![RegNode { reg: None }, RegNode { reg: Some(vec![0u8; 3]) }],
    );
    assert_eq!(parse_mmio_regions(&t), Err("Virtio_mmio region not found"));
}

#[test]
fn whole_tree_is_read() {
    let t = tree(
        Some(node(0x8000_0000, 0x800_0000)),
        vec![node(0x1000_8000, 0x1000), node(0x1000_7000, 0x1000)],
    );
    let info = parse_dtb(&t).unwrap();
    assert_eq!(info.memory_addr, 0x8000_0000);
    assert_eq!(info.memory_size, 0x800_0000);
    assert_eq!(info.mmio_regions, vec![(0x1000_8000, 0x1000), (0x1000_7000, 0x1000)]);
}

#[test]
fn memory_fails_before_devices() {
    let t = tree(None, vec![RegNode { reg: None }]);
    assert_eq!(parse_dtb(&t).err(), Some("Memory node not found"));
    let t = tree(Some(node(0x8000_0000, 0x800_0000)), vec![RegNode { reg: None }]);
    assert_eq!(parse_dtb(&t).err(), Some("Virtio_mmio region not found"));
}

#[test]
fn large_numbers_are_read_whole() {
    let t = tree(Some(node(0xffff_ffc0_8000_0000, 0x1_0000_0000)), Vec::new());
    assert_eq!(
        parse_memory_info(&t),
        Ok((0xffff_ffc0_8000_0000_u64 as usize, 0x1_0000_0000_u64 as usize))
    );
}

fn blob(magic: u32, total_size: u32, len: usize) -> Vec<u8> {
    let mut data = vec![0u8; len];
    let words = [magic, total_size, 40, 40, 40, 17, 16, 0, 0, 0];
    for (i, word) in words.iter().enumerate() {
        if 4 * i + 4 <= len {
            data[4 * i..4 * i + 4].copy_from_slice(&word.to_be_bytes());
        }
    }
    data
}

#[test]
fn blob_with_a_good_header_is_opened() {
    let data = blob(0xd00d_feed, 48, 48);
    let opened = open_dtb(&data);
    assert!(opened.is_ok());
    assert_eq!(opened.unwrap().total_size(), 48);
    let roomy = blob(0xd00d_feed, 40, 64);
    assert!(open_dtb(&roomy).is_ok());
}

#[test]
fn blob_with_a_wrong_magic_number_is_not_opened() {
    let data = blob(0xd00d_feee, 48, 48);
    assert_eq!(open_dtb(&data).err(), Some("Failed to create Fdt instance"));
    let swapped = blob(0xedfe_0dd0, 48, 48);
    assert_eq!(open_dtb(&swapped).err(), Some("Failed to create Fdt instance"));
}

#[test]
fn blob_shorter_than_its_header_is_not_opened() {
    let data = blob(0xd00d_feed, 39, 39);
    assert_eq!(open_dtb(&data).err(), Some("Failed to create Fdt instance"));
    let empty: Vec<u8> = Vec::new();
    assert_eq!(open_dtb(&empty).err(), Some("Failed to create Fdt instance"));
}

#[test]
fn blob_shorter_than_its_total_size_is_not_opened() {
    let data = blob(0xd00d_feed, 49, 48);
    assert_eq!(open_dtb(&data).err(), Some("Failed to create Fdt instance"));
    let exact = blob(0xd00d_feed, 48, 48);
    assert!(open_dtb(&exact).is_ok());
}

#[test]
fn stated_size_is_the_second_word_of_the_header() {
    let data = blob(0xd00d_feed, 0x1234, 48);
    assert_eq!(stated_size(&data), Some(0x1234));
    assert_eq!(stated_size(&data[..8]), Some(0x1234));
    assert_eq!(stated_size(&data[..7]), None);
    assert_eq!(stated_size(&[]), None);
    assert_eq!(stated_size(&[0, 0, 0, 0, 0xff, 0xff, 0xff, 0xff]), Some(0xffff_ffff));
}

#[test]
fn four_bytes_are_read_most_significant_first() {
    assert_eq!(read_be_u32(&[0xd0, 0x0d, 0xfe, 0xed], 0), 0xd00d_feed);
    assert_eq!(read_be_u32(&[9, 0, 0, 1, 0], 1), 256);
    assert_eq!(read_be_u32(&[9, 0, 0, 0, 1], 1), 1);
}
