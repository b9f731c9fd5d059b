//! The x86 boot-parameter block ("zeropage") and the setup header that the
//! kernel image carries and the block repeats.
use vstd::prelude::*;

use crate::bytes::{copy_into, copy_range, le16, le32, le64, read_u16_le, read_u32_le, read_u64_le, splice, zeros};
use crate::error::RrubError;
use crate::firmware::memory::MemoryRegion;
use crate::loaders::linux::common::{
    APM_BIOS_INFO_SIZE, EDID_INFO_SIZE, IST_INFO_SIZE, SCREEN_INFO_SIZE,
};
use crate::mem::e820::{e820_entry_bytes, e820_entry_of, E820Entry, E820_ENTRY_SIZE};

verus! {

/// Capacity of the memory-map table of the boot-parameter block.
pub const E820_MAX_ENTRIES_ZEROPAGE: usize = 128;

pub const EDD_MBR_SIG_MAX: usize = 16;

/// Size of the setup header in bytes.
pub const SETUP_HEADER_SIZE: usize = 123;

/// Offset of the setup header, in the kernel image and in the boot-parameter
/// block alike.
pub const SETUP_HEADER_OFFSET: usize = 0x1f1;

/// Size of the boot-parameter block: one page.
pub const ZEROPAGE_SIZE: usize = 4096;

/// Offset of the count of memory-map entries in the boot-parameter block.
pub const ZP_E820_ENTRIES_OFFSET: usize = 0x1e8;

/// Offset of the memory-map table in the boot-parameter block.
pub const ZP_E820_TABLE_OFFSET: usize = 0x2d0;

/// Offset of `setup_sects` inside the setup header.
pub const HDR_SETUP_SECTS: usize = 0;

/// Offset of `boot_flag` inside the setup header.
pub const HDR_BOOT_FLAG: usize = 13;

/// Offset of `header` inside the setup header.
pub const HDR_HEADER: usize = 17;

/// Offset of `version` inside the setup header.
pub const HDR_VERSION: usize = 21;

/// Offset of `loadflags` inside the setup header.
pub const HDR_LOADFLAGS: usize = 32;

/// Offset of `kernel_alignment` inside the setup header.
pub const HDR_KERNEL_ALIGNMENT: usize = 63;

/// Offset of `relocatable_kernel` inside the setup header.
pub const HDR_RELOCATABLE_KERNEL: usize = 67;

/// Offset of `xloadflags` inside the setup header.
pub const HDR_XLOADFLAGS: usize = 69;

/// Offset of `pref_address` inside the setup header.
pub const HDR_PREF_ADDRESS: usize = 103;

/// Offset of `init_size` inside the setup header.
pub const HDR_INIT_SIZE: usize = 111;

/// Offset of `handover_offset` inside the setup header.
pub const HDR_HANDOVER_OFFSET: usize = 115;

/// Sizes of the setup header's fields, in the order the protocol lays them out.
pub open spec fn setup_header_field_size(i: int) -> int {
    if i == 0 {
        1
    } else if i == 1 {
        2
    } else if i == 2 {
        4
    } else if i == 3 {
        2
    } else if i == 4 {
        2
    } else if i == 5 {
        2
    } else if i == 6 {
        2
    } else if i == 7 {
        2
    } else if i == 8 {
        4
    } else if i == 9 {
        2
    } else if i == 10 {
        4
    } else if i == 11 {
        2
    } else if i == 12 {
        2
    } else if i == 13 {
        1
    } else if i == 14 {
        1
    } else if i == 15 {
        2
    } else if i == 16 {
        4
    } else if i == 17 {
        4
    } else if i == 18 {
        4
    } else if i == 19 {
        4
    } else if i == 20 {
        2
    } else if i == 21 {
        1
    } else if i == 22 {
        1
    } else if i == 23 {
        4
    } else if i == 24 {
        4
    } else if i == 25 {
        4
    } else if i == 26 {
        1
    } else if i == 27 {
        1
    } else if i == 28 {
        2
    } else if i == 29 {
        4
    } else if i == 30 {
        4
    } else if i == 31 {
        8
    } else if i == 32 {
        4
    } else if i == 33 {
        4
    } else if i == 34 {
        8
    } else if i == 35 {
        8
    } else if i == 36 {
        4
    } else if i == 37 {
        4
    } else if i == 38 {
        4
    } else {
        0
    }
}

/// Offset of field `i` of the setup header: the sizes of the fields before it.
pub open spec fn setup_header_field_offset(i: int) -> int
    decreases i,
{
    if i <= 0 {
        0
    } else {
        setup_header_field_offset(i - 1) + setup_header_field_size(i - 1)
    }
}

/// Sizes of the boot-parameter block's fields, in the order the protocol lays them out.
pub open spec fn zeropage_field_size(i: int) -> int {
    if i == 0 {
        64
    } else if i == 1 {
        20
    } else if i == 2 {
        4
    } else if i == 3 {
        8
    } else if i == 4 {
        16
    } else if i == 5 {
        8
    } else if i == 6 {
        8
    } else if i == 7 {
        16
    } else if i == 8 {
        16
    } else if i == 9 {
        16
    } else if i == 10 {
        16
    } else if i == 11 {
        4
    } else if i == 12 {
        4
    } else if i == 13 {
        4
    } else if i == 14 {
        112
    } else if i == 15 {
        4
    } else if i == 16 {
        128
    } else if i == 17 {
        32
    } else if i == 18 {
        4
    } else if i == 19 {
        4
    } else if i == 20 {
        1
    } else if i == 21 {
        1
    } else if i == 22 {
        1
    } else if i == 23 {
        1
    } else if i == 24 {
        1
    } else if i == 25 {
        2
    } else if i == 26 {
        1
    } else if i == 27 {
        1
    } else if i == 28 {
        123
    } else if i == 29 {
        36
    } else if i == 30 {
        64
    } else if i == 31 {
        2560
    } else if i == 32 {
        816
    } else {
        0
    }
}

/// Offset of field `i` of the boot-parameter block.
pub open spec fn zeropage_field_offset(i: int) -> int
    decreases i,
{
    if i <= 0 {
        0
    } else {
        zeropage_field_offset(i - 1) + zeropage_field_size(i - 1)
    }
}

/// The setup header lies at byte 0x1F1 of the boot-parameter block and the
/// memory-map table at byte 0x2D0; the fields of both structures, packed in
/// protocol order, put every constant the loader uses where the kernel looks
/// for it, and the block fills exactly one page.
pub proof fn lemma_zeropage_layout()
    ensures
        zeropage_field_offset(28) == SETUP_HEADER_OFFSET,
        zeropage_field_offset(28) == 0x1f1,
        zeropage_field_offset(31) == ZP_E820_TABLE_OFFSET,
        zeropage_field_offset(31) == 0x2d0,
        zeropage_field_offset(20) == ZP_E820_ENTRIES_OFFSET,
        zeropage_field_size(31) == E820_MAX_ENTRIES_ZEROPAGE * E820_ENTRY_SIZE,
        zeropage_field_offset(33) == ZEROPAGE_SIZE,
        zeropage_field_size(0) == SCREEN_INFO_SIZE,
        zeropage_field_size(1) == APM_BIOS_INFO_SIZE,
        zeropage_field_size(4) == IST_INFO_SIZE,
        zeropage_field_size(9) == SYS_DESC_TABLE_SIZE,
        zeropage_field_size(10) == OLPC_OFW_HEADER_SIZE,
        zeropage_field_size(16) == EDID_INFO_SIZE,
        zeropage_field_size(17) == EFI_INFO_SIZE,
        zeropage_field_size(28) == SETUP_HEADER_SIZE,
        setup_header_field_offset(39) == SETUP_HEADER_SIZE,
        setup_header_field_offset(0) == HDR_SETUP_SECTS,
        setup_header_field_size(0) == 1,
        setup_header_field_offset(6) == HDR_BOOT_FLAG,
        setup_header_field_size(6) == 2,
        setup_header_field_offset(8) == HDR_HEADER,
        setup_header_field_size(8) == 4,
        setup_header_field_offset(9) == HDR_VERSION,
        setup_header_field_size(9) == 2,
        setup_header_field_offset(14) == HDR_LOADFLAGS,
        setup_header_field_size(14) == 1,
        setup_header_field_offset(25) == HDR_KERNEL_ALIGNMENT,
        setup_header_field_size(25) == 4,
        setup_header_field_offset(26) == HDR_RELOCATABLE_KERNEL,
        setup_header_field_size(26) == 1,
        setup_header_field_offset(28) == HDR_XLOADFLAGS,
        setup_header_field_size(28) == 2,
        setup_header_field_offset(35) == HDR_PREF_ADDRESS,
        setup_header_field_size(35) == 8,
        setup_header_field_offset(36) == HDR_INIT_SIZE,
        setup_header_field_size(36) == 4,
        setup_header_field_offset(37) == HDR_HANDOVER_OFFSET,
        setup_header_field_size(37) == 4,
{
    assert(setup_header_field_offset(0) == 0);
    assert(setup_header_field_offset(1) == 1);
    assert(setup_header_field_offset(2) == 3);
    assert(setup_header_field_offset(3) == 7);
    assert(setup_header_field_offset(4) == 9);
    assert(setup_header_field_offset(5) == 11);
    assert(setup_header_field_offset(6) == 13);
    assert(setup_header_field_offset(7) == 15);
    assert(setup_header_field_offset(8) == 17);
    assert(setup_header_field_offset(9) == 21);
    assert(setup_header_field_offset(10) == 23);
    assert(setup_header_field_offset(11) == 27);
    assert(setup_header_field_offset(12) == 29);
    assert(setup_header_field_offset(13) == 31);
    assert(setup_header_field_offset(14) == 32);
    assert(setup_header_field_offset(15) == 33);
    assert(setup_header_field_offset(16) == 35);
    assert(setup_header_field_offset(17) == 39);
    assert(setup_header_field_offset(18) == 43);
    assert(setup_header_field_offset(19) == 47);
    assert(setup_header_field_offset(20) == 51);
    assert(setup_header_field_offset(21) == 53);
    assert(setup_header_field_offset(22) == 54);
    assert(setup_header_field_offset(23) == 55);
    assert(setup_header_field_offset(24) == 59);
    assert(setup_header_field_offset(25) == 63);
    assert(setup_header_field_offset(26) == 67);
    assert(setup_header_field_offset(27) == 68);
    assert(setup_header_field_offset(28) == 69);
    assert(setup_header_field_offset(29) == 71);
    assert(setup_header_field_offset(30) == 75);
    assert(setup_header_field_offset(31) == 79);
    assert(setup_header_field_offset(32) == 87);
    assert(setup_header_field_offset(33) == 91);
    assert(setup_header_field_offset(34) == 95);
    assert(setup_header_field_offset(35) == 103);
    assert(setup_header_field_offset(36) == 111);
    assert(setup_header_field_offset(37) == 115);
    assert(setup_header_field_offset(38) == 119);
    assert(setup_header_field_offset(39) == 123);
    assert(zeropage_field_offset(0) == 0);
    assert(zeropage_field_offset(1) == 64);
    assert(zeropage_field_offset(2) == 84);
    assert(zeropage_field_offset(3) == 88);
    assert(zeropage_field_offset(4) == 96);
    assert(zeropage_field_offset(5) == 112);
    assert(zeropage_field_offset(6) == 120);
    assert(zeropage_field_offset(7) == 128);
    assert(zeropage_field_offset(8) == 144);
    assert(zeropage_field_offset(9) == 160);
    assert(zeropage_field_offset(10) == 176);
    assert(zeropage_field_offset(11) == 192);
    assert(zeropage_field_offset(12) == 196);
    assert(zeropage_field_offset(13) == 200);
    assert(zeropage_field_offset(14) == 204);
    assert(zeropage_field_offset(15) == 316);
    assert(zeropage_field_offset(16) == 320);
    assert(zeropage_field_offset(17) == 448);
    assert(zeropage_field_offset(18) == 480);
    assert(zeropage_field_offset(19) == 484);
    assert(zeropage_field_offset(20) == 488);
    assert(zeropage_field_offset(21) == 489);
    assert(zeropage_field_offset(22) == 490);
    assert(zeropage_field_offset(23) == 491);
    assert(zeropage_field_offset(24) == 492);
    assert(zeropage_field_offset(25) == 493);
    assert(zeropage_field_offset(26) == 495);
    assert(zeropage_field_offset(27) == 496);
    assert(zeropage_field_offset(28) == 497);
    assert(zeropage_field_offset(29) == 620);
    assert(zeropage_field_offset(30) == 656);
    assert(zeropage_field_offset(31) == 720);
    assert(zeropage_field_offset(32) == 3280);
    assert(zeropage_field_offset(33) == 4096);
}

/// Size of [`SysDescTable`] in bytes.
pub const SYS_DESC_TABLE_SIZE: usize = 16;

/// System description table descriptor. The loader hands it over zeroed.
#[derive(Debug)]
pub struct SysDescTable {
    bytes: Vec<u8>,
}

impl View for SysDescTable {
    type V = Seq<u8>;

    closed spec fn view(&self) -> Seq<u8> {
        self.bytes@
    }
}

impl SysDescTable {
    pub fn empty() -> (r: SysDescTable)
        ensures
            r@ == zeros(SYS_DESC_TABLE_SIZE as nat),
    {
        let bytes = vec![0u8; SYS_DESC_TABLE_SIZE];
        assert(bytes@ =~= zeros(SYS_DESC_TABLE_SIZE as nat));
        SysDescTable { bytes }
    }

    pub fn as_bytes(&self) -> (r: &[u8])
        ensures
            r@ == self@,
    {
        self.bytes.as_slice()
    }
}

/// Size of [`OlpcOfwHeader`] in bytes.
pub const OLPC_OFW_HEADER_SIZE: usize = 16;

/// Open Firmware descriptor. The loader hands it over zeroed.
#[derive(Debug)]
pub struct OlpcOfwHeader {
    bytes: Vec<u8>,
}

impl View for OlpcOfwHeader {
    type V = Seq<u8>;

    closed spec fn view(&self) -> Seq<u8> {
        self.bytes@
    }
}

impl OlpcOfwHeader {
    pub fn empty() -> (r: OlpcOfwHeader)
        ensures
            r@ == zeros(OLPC_OFW_HEADER_SIZE as nat),
    {
        let bytes = vec![0u8; OLPC_OFW_HEADER_SIZE];
        assert(bytes@ =~= zeros(OLPC_OFW_HEADER_SIZE as nat));
        OlpcOfwHeader { bytes }
    }

    pub fn as_bytes(&self) -> (r: &[u8])
        ensures
            r@ == self@,
    {
        self.bytes.as_slice()
    }
}

/// Size of [`EfiInfo`] in bytes.
pub const EFI_INFO_SIZE: usize = 32;

/// Firmware-table descriptor. The loader hands it over zeroed.
#[derive(Debug)]
pub struct EfiInfo {
    bytes: Vec<u8>,
}

impl View for EfiInfo {
    type V = Seq<u8>;

    closed spec fn view(&self) -> Seq<u8> {
        self.bytes@
    }
}

impl EfiInfo {
    pub fn empty() -> (r: EfiInfo)
        ensures
            r@ == zeros(EFI_INFO_SIZE as nat),
    {
        let bytes = vec![0u8; EFI_INFO_SIZE];
        assert(bytes@ =~= zeros(EFI_INFO_SIZE as nat));
        EfiInfo { bytes }
    }

    pub fn as_bytes(&self) -> (r: &[u8])
        ensures
            r@ == self@,
    {
        self.bytes.as_slice()
    }
}

/// The kernel's setup header, copied verbatim out of its image.
#[derive(Debug)]
pub struct SetupHeader {
    bytes: Vec<u8>,
}

impl View for SetupHeader {
    type V = Seq<u8>;

    closed spec fn view(&self) -> Seq<u8> {
        self.bytes@
    }
}

impl SetupHeader {
    pub open spec fn wf(&self) -> bool {
        self@.len() == SETUP_HEADER_SIZE
    }

    /// The setup header of a kernel image; an image too short to hold it is
    /// malformed.
    pub fn from_image(kernel: &[u8]) -> (r: Result<SetupHeader, RrubError>)
        ensures
            kernel@.len() < SETUP_HEADER_OFFSET + SETUP_HEADER_SIZE ==> r
                == Err::<SetupHeader, RrubError>(RrubError::MalformedImage),
            kernel@.len() >= SETUP_HEADER_OFFSET + SETUP_HEADER_SIZE ==> r is Ok
                && r->Ok_0.wf()
                && r->Ok_0@ == kernel@.subrange(SETUP_HEADER_OFFSET as int, SETUP_HEADER_OFFSET + SETUP_HEADER_SIZE),
    {
        if kernel.len() < SETUP_HEADER_OFFSET + SETUP_HEADER_SIZE {
            return Err(RrubError::MalformedImage);
        }
        Ok(SetupHeader { bytes: copy_range(kernel, SETUP_HEADER_OFFSET, SETUP_HEADER_SIZE) })
    }

    pub fn as_bytes(&self) -> (r: &[u8])
        ensures
            r@ == self@,
    {
        self.bytes.as_slice()
    }

    pub fn setup_sects(&self) -> (r: u8)
        requires
            self.wf(),
        ensures
            r == self@[HDR_SETUP_SECTS as int],
    {
        self.bytes[HDR_SETUP_SECTS]
    }

    pub fn boot_flag(&self) -> (r: u16)
        requires
            self.wf(),
        ensures
            r as int == le16(self@, HDR_BOOT_FLAG as int),
    {
        read_u16_le(self.bytes.as_slice(), HDR_BOOT_FLAG)
    }

    pub fn header(&self) -> (r: u32)
        requires
            self.wf(),
        ensures
            r as int == le32(self@, HDR_HEADER as int),
    {
        read_u32_le(self.bytes.as_slice(), HDR_HEADER)
    }

    pub fn version(&self) -> (r: u16)
        requires
            self.wf(),
        ensures
            r as int == le16(self@, HDR_VERSION as int),
    {
        read_u16_le(self.bytes.as_slice(), HDR_VERSION)
    }

    pub fn loadflags(&self) -> (r: u8)
        requires
            self.wf(),
        ensures
            r == self@[HDR_LOADFLAGS as int],
    {
        self.bytes[HDR_LOADFLAGS]
    }

    pub fn kernel_alignment(&self) -> (r: u32)
        requires
            self.wf(),
        ensures
            r as int == le32(self@, HDR_KERNEL_ALIGNMENT as int),
    {
        read_u32_le(self.bytes.as_slice(), HDR_KERNEL_ALIGNMENT)
    }

    pub fn relocatable_kernel(&self) -> (r: u8)
        requires
            self.wf(),
        ensures
            r == self@[HDR_RELOCATABLE_KERNEL as int],
    {
        self.bytes[HDR_RELOCATABLE_KERNEL]
    }

    pub fn xloadflags(&self) -> (r: u16)
        requires
            self.wf(),
        ensures
            r as int == le16(self@, HDR_XLOADFLAGS as int),
    {
        read_u16_le(self.bytes.as_slice(), HDR_XLOADFLAGS)
    }

    pub fn pref_address(&self) -> (r: u64)
        requires
            self.wf(),
        ensures
            r as int == le64(self@, HDR_PREF_ADDRESS as int),
    {
        read_u64_le(self.bytes.as_slice(), HDR_PREF_ADDRESS)
    }

    pub fn init_size(&self) -> (r: u32)
        requires
            self.wf(),
        ensures
            r as int == le32(self@, HDR_INIT_SIZE as int),
    {
        read_u32_le(self.bytes.as_slice(), HDR_INIT_SIZE)
    }

    pub fn handover_offset(&self) -> (r: u32)
        requires
            self.wf(),
        ensures
            r as int == le32(self@, HDR_HANDOVER_OFFSET as int),
    {
        read_u32_le(self.bytes.as_slice(), HDR_HANDOVER_OFFSET)
    }
}

/// The boot-parameter block handed to the kernel.
#[derive(Debug)]
pub struct Zeropage {
    bytes: Vec<u8>,
}

impl View for Zeropage {
    type V = Seq<u8>;

    closed spec fn view(&self) -> Seq<u8> {
        self.bytes@
    }
}

/// The encoded entries for a memory map, one after the other.
pub open spec fn e820_table_bytes(map: Seq<MemoryRegion>) -> Seq<u8>
    decreases map.len(),
{
    if map.len() == 0 {
        Seq::empty()
    } else {
        e820_table_bytes(map.drop_last()) + e820_entry_bytes(e820_entry_of(map.last()))
    }
}

pub proof fn lemma_e820_table_len(map: Seq<MemoryRegion>)
    ensures
        e820_table_bytes(map).len() == map.len() * E820_ENTRY_SIZE,
    decreases map.len(),
{
    if map.len() > 0 {
        lemma_e820_table_len(map.drop_last());
    }
}

/// Entry `i` of an encoded table is the encoding of entry `i` of the map.
pub proof fn lemma_e820_table_entry(map: Seq<MemoryRegion>, i: int)
    requires
        0 <= i < map.len(),
    ensures
        e820_table_bytes(map).subrange(i * E820_ENTRY_SIZE, i * E820_ENTRY_SIZE + E820_ENTRY_SIZE)
            == e820_entry_bytes(e820_entry_of(map[i])),
    decreases map.len(),
{
    let prefix = map.drop_last();
    lemma_e820_table_len(prefix);
    let last = e820_entry_bytes(e820_entry_of(map.last()));
    assert(last.len() == E820_ENTRY_SIZE);
    if i < prefix.len() {
        lemma_e820_table_entry(prefix, i);
        lemma_e820_table_len(prefix);
        assert(i * E820_ENTRY_SIZE + E820_ENTRY_SIZE <= prefix.len() * E820_ENTRY_SIZE) by (nonlinear_arith)
            requires i + 1 <= prefix.len();
        assert(e820_table_bytes(map).subrange(i * E820_ENTRY_SIZE, i * E820_ENTRY_SIZE + E820_ENTRY_SIZE)
            =~= e820_table_bytes(prefix).subrange(i * E820_ENTRY_SIZE, i * E820_ENTRY_SIZE + E820_ENTRY_SIZE));
        assert(prefix[i] == map[i]);
    } else {
        assert(e820_table_bytes(map).subrange(i * E820_ENTRY_SIZE, i * E820_ENTRY_SIZE + E820_ENTRY_SIZE)
            =~= last);
    }
}

/// Memory-map translation keeps the firmware's order and values: after it,
/// entry `i` of the block's table is the kernel entry for range `i` of the
/// map (same start, same size, the type the fixed table gives), and the
/// counter holds the number of ranges.
pub proof fn lemma_e820_translation(zp: Seq<u8>, map: Seq<MemoryRegion>, i: int)
    requires
        zp.len() == ZEROPAGE_SIZE,
        map.len() <= E820_MAX_ENTRIES_ZEROPAGE,
        0 <= i < map.len(),
    ensures
        with_e820_table(zp, map).len() == ZEROPAGE_SIZE,
        with_e820_table(zp, map)[ZP_E820_ENTRIES_OFFSET as int] == map.len() as u8,
        with_e820_table(zp, map).subrange(
            ZP_E820_TABLE_OFFSET + i * E820_ENTRY_SIZE,
            ZP_E820_TABLE_OFFSET + i * E820_ENTRY_SIZE + E820_ENTRY_SIZE,
        ) == e820_entry_bytes(e820_entry_of(map[i])),
        e820_entry_of(map[i]).addr == map[i].start,
        e820_entry_of(map[i]).size == map[i].size,
{
    lemma_e820_table_len(map);
    lemma_e820_table_entry(map, i);
    let table = e820_table_bytes(map);
    assert(i * E820_ENTRY_SIZE + E820_ENTRY_SIZE <= map.len() * E820_ENTRY_SIZE) by (nonlinear_arith)
        requires i + 1 <= map.len();
    assert(map.len() * E820_ENTRY_SIZE <= E820_MAX_ENTRIES_ZEROPAGE * E820_ENTRY_SIZE) by (nonlinear_arith)
        requires map.len() <= E820_MAX_ENTRIES_ZEROPAGE;
    let first = splice(zp, ZP_E820_TABLE_OFFSET as int, table);
    assert(first.len() == ZEROPAGE_SIZE);
    assert(first.subrange(
        ZP_E820_TABLE_OFFSET + i * E820_ENTRY_SIZE,
        ZP_E820_TABLE_OFFSET + i * E820_ENTRY_SIZE + E820_ENTRY_SIZE,
    ) =~= table.subrange(i * E820_ENTRY_SIZE, i * E820_ENTRY_SIZE + E820_ENTRY_SIZE));
    assert(with_e820_table(zp, map).subrange(
        ZP_E820_TABLE_OFFSET + i * E820_ENTRY_SIZE,
        ZP_E820_TABLE_OFFSET + i * E820_ENTRY_SIZE + E820_ENTRY_SIZE,
    ) =~= first.subrange(
        ZP_E820_TABLE_OFFSET + i * E820_ENTRY_SIZE,
        ZP_E820_TABLE_OFFSET + i * E820_ENTRY_SIZE + E820_ENTRY_SIZE,
    ));
}

/// The block after the memory-map translation: the encoded entries in the
/// table and their number in the counter.
pub open spec fn with_e820_table(zp: Seq<u8>, map: Seq<MemoryRegion>) -> Seq<u8> {
    splice(
        splice(zp, ZP_E820_TABLE_OFFSET as int, e820_table_bytes(map)),
        ZP_E820_ENTRIES_OFFSET as int,
        seq![map.len() as u8],
    )
}

impl Zeropage {
    pub open spec fn wf(&self) -> bool {
        self@.len() == ZEROPAGE_SIZE
    }

    /// A block with every field zero.
    pub fn empty() -> (r: Zeropage)
        ensures
            r@ == zeros(ZEROPAGE_SIZE as nat),
            r.wf(),
    {
        let bytes = vec![0u8; ZEROPAGE_SIZE];
        assert(bytes@ =~= zeros(ZEROPAGE_SIZE as nat));
        Zeropage { bytes }
    }

    pub fn as_bytes(&self) -> (r: &[u8])
        ensures
            r@ == self@,
    {
        self.bytes.as_slice()
    }

    /// The setup header the block holds.
    pub fn hdr(&self) -> (r: SetupHeader)
        requires
            self.wf(),
        ensures
            r.wf(),
            r@ == self@.subrange(SETUP_HEADER_OFFSET as int, SETUP_HEADER_OFFSET + SETUP_HEADER_SIZE),
    {
        SetupHeader { bytes: copy_range(self.bytes.as_slice(), SETUP_HEADER_OFFSET, SETUP_HEADER_SIZE) }
    }

    /// Puts `hdr` in the setup-header field; nothing else changes.
    pub fn set_hdr(&mut self, hdr: &SetupHeader)
        requires
            old(self).wf(),
            hdr.wf(),
        ensures
            final(self).wf(),
            final(self)@ == splice(old(self)@, SETUP_HEADER_OFFSET as int, hdr@),
    {
        copy_into(&mut self.bytes, SETUP_HEADER_OFFSET, hdr.bytes.as_slice());
    }

    /// Number of entries in the memory-map table.
    pub fn e820_entries(&self) -> (r: u8)
        requires
            self.wf(),
        ensures
            r == self@[ZP_E820_ENTRIES_OFFSET as int],
    {
        self.bytes[ZP_E820_ENTRIES_OFFSET]
    }

    /// Entry `i` of the memory-map table.
    pub fn e820_entry(&self, i: usize) -> (r: E820Entry)
        requires
            self.wf(),
            i < E820_MAX_ENTRIES_ZEROPAGE,
        ensures
            r.addr as int == le64(self@, ZP_E820_TABLE_OFFSET + i * E820_ENTRY_SIZE),
            r.size as int == le64(self@, ZP_E820_TABLE_OFFSET + i * E820_ENTRY_SIZE + 8),
            r.entry_type as int == le32(self@, ZP_E820_TABLE_OFFSET + i * E820_ENTRY_SIZE + 16),
    {
        E820Entry::from_bytes(self.bytes.as_slice(), ZP_E820_TABLE_OFFSET + i * E820_ENTRY_SIZE)
    }

    /// Writes the kernel's memory map for `map`, in the firmware's order and
    /// without merging, and records the number of entries. A map longer than
    /// the table is refused and changes nothing.
    pub fn set_e820_table(&mut self, map: &[MemoryRegion]) -> (r: Result<(), RrubError>)
        requires
            old(self).wf(),
        ensures
            final(self).wf(),
            map@.len() > E820_MAX_ENTRIES_ZEROPAGE ==> r == Err::<(), RrubError>(RrubError::MemoryMapOverflow)
                && final(self)@ == old(self)@,
            map@.len() <= E820_MAX_ENTRIES_ZEROPAGE ==> r is Ok
                && final(self)@ == with_e820_table(old(self)@, map@),
    {
        let n = map.len();
        if n > E820_MAX_ENTRIES_ZEROPAGE {
            return Err(RrubError::MemoryMapOverflow);
        }
        let ghost start = self.bytes@;
        let mut i: usize = 0;
        while i < n
            invariant
                n == map@.len(),
                n <= E820_MAX_ENTRIES_ZEROPAGE,
                0 <= i <= n,
                start.len() == ZEROPAGE_SIZE,
                self.bytes@.len() == ZEROPAGE_SIZE,
                self.bytes@ == splice(start, ZP_E820_TABLE_OFFSET as int, e820_table_bytes(map@.subrange(0, i as int))),
            decreases n - i,
        {
            proof {
                lemma_e820_table_len(map@.subrange(0, i as int));
            }
            let entry = E820Entry::from_region(&map[i]);
            let encoded = entry.to_bytes();
            copy_into(&mut self.bytes, ZP_E820_TABLE_OFFSET + i * E820_ENTRY_SIZE, encoded.as_slice());
            proof {
                let prev = map@.subrange(0, i as int);
                let next = map@.subrange(0, i + 1);
                assert(next.drop_last() =~= prev);
                assert(next.last() == map@[i as int]);
                assert(e820_table_bytes(next) == e820_table_bytes(prev) + encoded@);
                assert(self.bytes@ =~= splice(start, ZP_E820_TABLE_OFFSET as int, e820_table_bytes(next)));
            }
            i = i + 1;
        }
        assert(map@.subrange(0, n as int) =~= map@);
        proof {
            lemma_e820_table_len(map@);
        }
        let count = [n as u8];
        copy_into(&mut self.bytes, ZP_E820_ENTRIES_OFFSET, &count);
        assert(count@ =~= seq![map@.len() as u8]);
        Ok(())
    }
}

} // verus!
