//! What the kernel learns from the device tree: where memory lies, and where
//! the memory-mapped devices of the platform are.
//!
//! A device-tree blob is opened with the `fdt` crate, which checks its
//! header. Walking the opened tree is left to the caller, because `fdt`
//! walks a malformed tree into a panic. This module takes the `reg`
//! properties that the walk found and decodes them. A `reg` property starts
//! with an address of eight bytes and a size of eight bytes, both most
//! significant byte first.

use vstd::prelude::*;
use crate::endian::be_value;
use crate::endian::read_be_u32;
use crate::endian::read_be_u64;

verus! {

/// Number of bytes of a `reg` property that are decoded.
pub const REG_LEN: usize = 16;

/// Number of bytes in the header of a device-tree blob.
pub const FDT_HEADER_LEN: usize = 40;

/// The number that marks a device-tree blob.
pub const FDT_MAGIC: u32 = 0xd00d_feed;

/// An opened device-tree blob of the `fdt` crate.
#[verifier::external_type_specification]
#[verifier::external_body]
pub struct ExFdt<'a>(fdt::Fdt<'a>);

/// The reason for which the `fdt` crate does not open a blob.
#[verifier::external_type_specification]
#[verifier::external_body]
pub struct ExFdtError(fdt::FdtError);

/// The header of `data` is that of a device-tree blob: it is complete, it
/// starts with the magic number, and the total size that it states is not
/// more than `data` holds.
pub open spec fn fdt_header_ok(data: Seq<u8>) -> bool {
    &&& data.len() >= FDT_HEADER_LEN
    &&& be_value(data.subrange(0, 4)) == FDT_MAGIC
    &&& be_value(data.subrange(4, 8)) <= data.len()
}

/// The bytes that an opened blob reads from.
pub uninterp spec fn fdt_data(tree: fdt::Fdt<'_>) -> Seq<u8>;

/// The message for a blob that cannot be opened.
pub open spec fn err_open() -> Seq<char> {
    "Failed to create Fdt instance"@
}

/// Calls `fdt::Fdt::new`. The call succeeds exactly when the header of
/// `data` is complete, holds the magic number in its first word, and states
/// in its second word a total size that `data` can hold. Nothing else of
/// the blob is looked at. The opened blob reads from `data`.
#[verifier::external_body]
fn fdt_new<'a>(data: &'a [u8]) -> (r: Result<fdt::Fdt<'a>, fdt::FdtError>)
    ensures
        r is Ok <==> fdt_header_ok(data@),
        r matches Ok(tree) ==> fdt_data(tree) == data@,
{
    fdt::Fdt::new(data)
}

/// The total size that the header of a blob states, where `header` holds
/// the first two words of the blob. On a machine whose words are shorter
/// than four bytes, the size is the low part of the number.
pub fn stated_size(header: &[u8]) -> (r: Option<usize>)
    ensures
        r == if header@.len() >= 8 {
            Some(be_value(header@.subrange(4, 8)) as usize)
        } else {
            None
        },
{
    if header.len() < 8 {
        None
    } else {
        Some(read_be_u32(header, 4) as usize)
    }
}

/// Opens a device-tree blob. Only the header is checked: the tree inside
/// may still be malformed.
pub fn open_dtb<'a>(data: &'a [u8]) -> (r: Result<fdt::Fdt<'a>, &'static str>)
    ensures
        r is Ok <==> fdt_header_ok(data@),
        r matches Ok(tree) ==> fdt_data(tree) == data@,
        r matches Err(e) ==> e@ == err_open(),
{
    match fdt_new(data) {
        Ok(tree) => Ok(tree),
        Err(_) => Err("Failed to create Fdt instance"),
    }
}

/// A node of the device tree, as far as it is read: its `reg` property, if it
/// has one.
pub struct RegNode {
    /// Value of the `reg` property.
    pub reg: Option<Vec<u8>>,
}

/// The nodes of a device tree that the kernel reads.
pub struct DeviceTree {
    /// The node `/memory`, if the tree has one.
    pub memory: Option<RegNode>,
    /// The nodes `/soc/virtio_mmio`, in the order of the tree.
    pub virtio_mmio: Vec<RegNode>,
}

/// Memory and device layout of the platform.
pub struct DtbInfo {
    /// First address of memory.
    pub memory_addr: usize,
    /// Number of bytes of memory.
    pub memory_size: usize,
    /// Address and size of each memory-mapped device.
    pub mmio_regions: Vec<(usize, usize)>,
}

/// The message for a tree without a memory node.
pub open spec fn err_memory_node() -> Seq<char> {
    "Memory node not found"@
}

/// The message for a memory node without a `reg` property.
pub open spec fn err_memory_region() -> Seq<char> {
    "Memory region not found"@
}

/// The message for a `reg` property that is too short to decode.
pub open spec fn err_convert() -> Seq<char> {
    "Failed to convert memory address bytes"@
}

/// The message for a device node without a `reg` property.
pub open spec fn err_mmio_region() -> Seq<char> {
    "Virtio_mmio region not found"@
}

/// Address and size that a `reg` property of at least `REG_LEN` bytes
/// spells. On a machine whose words are shorter than eight bytes, each is the
/// low part of the number.
pub open spec fn reg_pair(reg: Seq<u8>) -> (usize, usize) {
    (be_value(reg.subrange(0, 8)) as usize, be_value(reg.subrange(8, 16)) as usize)
}

/// What decoding the `reg` property of a node gives, where `missing` is the
/// message for a node without the property.
pub open spec fn decode_node(node: RegNode, missing: Seq<char>) -> Result<
    (usize, usize),
    Seq<char>,
> {
    match node.reg {
        None => Err(missing),
        Some(reg) => if reg@.len() < REG_LEN {
            Err(err_convert())
        } else {
            Ok(reg_pair(reg@))
        },
    }
}

/// What `parse_memory_info` gives.
pub open spec fn memory_info_spec(tree: DeviceTree) -> Result<(usize, usize), Seq<char>> {
    match tree.memory {
        None => Err(err_memory_node()),
        Some(node) => decode_node(node, err_memory_region()),
    }
}

/// Every device node can be decoded.
pub open spec fn all_decodable(nodes: Seq<RegNode>) -> bool {
    forall|j: int|
        0 <= j < nodes.len() ==> decode_node(#[trigger] nodes[j], err_mmio_region()) is Ok
}

/// Device node `k` is the first that cannot be decoded.
pub open spec fn first_failure_at(nodes: Seq<RegNode>, k: int) -> bool {
    &&& 0 <= k < nodes.len()
    &&& decode_node(nodes[k], err_mmio_region()) is Err
    &&& forall|j: int| 0 <= j < k ==> decode_node(#[trigger] nodes[j], err_mmio_region()) is Ok
}

/// The regions of the device nodes, in the order of the tree.
pub open spec fn regions_of(nodes: Seq<RegNode>) -> Seq<(usize, usize)> {
    Seq::new(nodes.len(), |i: int| decode_node(nodes[i], err_mmio_region())->Ok_0)
}

/// `e` is the message for the first device node that cannot be decoded.
pub open spec fn is_first_failure(nodes: Seq<RegNode>, e: Seq<char>) -> bool {
    exists|k: int|
        first_failure_at(nodes, k) && #[trigger] decode_node(nodes[k], err_mmio_region()) == Err::<
            (usize, usize),
            Seq<char>,
        >(e)
}

/// `r` is the outcome that `spec` describes: the same value, or an error
/// with the same message.
pub open spec fn same_outcome<T>(r: Result<T, &'static str>, spec: Result<T, Seq<char>>) -> bool {
    match (r, spec) {
        (Ok(a), Ok(b)) => a == b,
        (Err(e), Err(m)) => e@ == m,
        _ => false,
    }
}

impl DtbInfo {
    /// The layout with the given memory range and device regions.
    pub fn new(memory_addr: usize, memory_size: usize, mmio_regions: Vec<(usize, usize)>) -> (r:
        Self)
        ensures
            r.memory_addr == memory_addr,
            r.memory_size == memory_size,
            r.mmio_regions == mmio_regions,
    {
        DtbInfo { memory_addr, memory_size, mmio_regions }
    }
}

/// Decodes the `reg` property of `node`, or answers with `missing` if the
/// node has none.
fn decode_reg(node: &RegNode, missing: &'static str) -> (r: Result<(usize, usize), &'static str>)
    ensures
        same_outcome(r, decode_node(*node, missing@)),
{
    match &node.reg {
        None => Err(missing),
        Some(reg) => {
            if reg.len() < REG_LEN {
                Err("Failed to convert memory address bytes")
            } else {
                let addr: u64 = read_be_u64(reg.as_slice(), 0);
                let size: u64 = read_be_u64(reg.as_slice(), 8);
                Ok((addr as usize, size as usize))
            }
        },
    }
}

/// Finds where memory lies: address and size from the `reg` property of the
/// memory node.
pub fn parse_memory_info(tree: &DeviceTree) -> (r: Result<(usize, usize), &'static str>)
    ensures
        same_outcome(r, memory_info_spec(*tree)),
{
    match &tree.memory {
        None => Err("Memory node not found"),
        Some(node) => decode_reg(node, "Memory region not found"),
    }
}

/// Finds the memory-mapped devices: address and size from the `reg`
/// property of each device node, in the order of the tree. The first node
/// that cannot be decoded ends the search with its message.
pub fn parse_mmio_regions(tree: &DeviceTree) -> (r: Result<Vec<(usize, usize)>, &'static str>)
    ensures
        r is Ok <==> all_decodable(tree.virtio_mmio@),
        r matches Ok(v) ==> v@ == regions_of(tree.virtio_mmio@),
        r matches Err(e) ==> is_first_failure(tree.virtio_mmio@, e@),
{
    let ghost nodes = tree.virtio_mmio@;
    let mut mmio_regions: Vec<(usize, usize)> = Vec::new();
    let n: usize = tree.virtio_mmio.len();
    let mut i: usize = 0;
    while i < n
        invariant
            nodes == tree.virtio_mmio@,
            n == nodes.len(),
            i <= n,
            mmio_regions@.len() == i,
            forall|j: int|
                0 <= j < i ==> decode_node(#[trigger] nodes[j], err_mmio_region()) is Ok,
            forall|j: int|
                0 <= j < i ==> mmio_regions@[j] == decode_node(nodes[j], err_mmio_region())->Ok_0,
        decreases n - i,
    {
        match decode_reg(&tree.virtio_mmio[i], "Virtio_mmio region not found") {
            Err(e) => {
                proof {
                    assert(first_failure_at(nodes, i as int));
                    assert(decode_node(nodes[i as int], err_mmio_region()) == Err::<
                        (usize, usize),
                        Seq<char>,
                    >(e@));
                }
                return Err(e);
            },
            Ok(region) => {
                mmio_regions.push(region);
            },
        }
        i += 1;
    }
    proof {
        assert(mmio_regions@ =~= regions_of(nodes));
    }
    Ok(mmio_regions)
}

/// Reads the memory and device layout of the platform from the nodes of its
/// device tree. What fails first decides the message, memory before
/// devices.
pub fn parse_dtb(tree: &DeviceTree) -> (r: Result<DtbInfo, &'static str>)
    ensures
        r is Ok <==> memory_info_spec(*tree) is Ok && all_decodable(tree.virtio_mmio@),
        r matches Ok(info) ==> {
            &&& memory_info_spec(*tree) == Ok::<(usize, usize), Seq<char>>(
                (info.memory_addr, info.memory_size),
            )
            &&& info.mmio_regions@ == regions_of(tree.virtio_mmio@)
        },
        r matches Err(e) ==> match memory_info_spec(*tree) {
            Err(m) => e@ == m,
            Ok(_) => is_first_failure(tree.virtio_mmio@, e@),
        },
{
    let memory_info = match parse_memory_info(tree) {
        Ok(pair) => pair,
        Err(e) => {
            return Err(e);
        },
    };
    let mmio_regions = match parse_mmio_regions(tree) {
        Ok(regions) => regions,
        Err(e) => {
            return Err(e);
        },
    };
    Ok(DtbInfo::new(memory_info.0, memory_info.1, mmio_regions))
}

/// At most one device node is the first that cannot be decoded.
pub proof fn lemma_first_failure_unique(nodes: Seq<RegNode>, a: int, b: int)
    requires
        first_failure_at(nodes, a),
        first_failure_at(nodes, b),
    ensures
        a == b,
{
    if a < b {
        assert(decode_node(nodes[a], err_mmio_region()) is Ok);
    } else if b < a {
        assert(decode_node(nodes[b], err_mmio_region()) is Ok);
    }
}

} // verus!
