use rrub::error::RrubError;
use rrub::firmware::memory::{
    memory_map_from_descriptors, MemoryRegion as MapRegion, MemoryType, EFI_ACPI_NON_VOLATILE,
    EFI_ACPI_RECLAIM, EFI_BOOT_SERVICES_DATA, EFI_CONVENTIONAL, EFI_LOADER_CODE, EFI_MMIO,
    EFI_PERSISTENT_MEMORY, EFI_RUNTIME_SERVICES_CODE, EFI_UNUSABLE,
};
use rrub::loaders::linux::common::{ApmBiosInfo, EdidInfo, IstInfo, ScreenInfo};
use rrub::loaders::linux::x86::{
    EfiInfo, OlpcOfwHeader, SetupHeader, SysDescTable, Zeropage, E820_MAX_ENTRIES_ZEROPAGE,
    HDR_HANDOVER_OFFSET, HDR_KERNEL_ALIGNMENT, HDR_RELOCATABLE_KERNEL, SETUP_HEADER_OFFSET,
    SETUP_HEADER_SIZE, ZEROPAGE_SIZE, ZP_E820_ENTRIES_OFFSET, ZP_E820_TABLE_OFFSET,
};
use rrub::mem::e820::{E820Entry, E820Type};

fn region(start: u64, size: u64, region_type: MemoryType) -> MapRegion {
    MapRegion { start, size, region_type }
}

#[test]
fn layout_offsets_match_the_protocol() {
    assert_eq!(SETUP_HEADER_OFFSET, 0x1F1);
    assert_eq!(ZP_E820_TABLE_OFFSET, 0x2D0);
    assert_eq!(ZP_E820_ENTRIES_OFFSET, 0x1E8);
    assert_eq!(SETUP_HEADER_SIZE, 0x26C - 0x1F1);
    assert_eq!(ZEROPAGE_SIZE, 4096);
    assert_eq!(SETUP_HEADER_OFFSET + HDR_HANDOVER_OFFSET, 0x264);
    assert_eq!(SETUP_HEADER_OFFSET + HDR_KERNEL_ALIGNMENT, 0x230);
    assert_eq!(SETUP_HEADER_OFFSET + HDR_RELOCATABLE_KERNEL, 0x234);
    assert_eq!(ZP_E820_TABLE_OFFSET + E820_MAX_ENTRIES_ZEROPAGE * 20, 0xCD0);
}

#[test]
fn empty_descriptors_are_zero() {
    assert_eq!(ScreenInfo::empty().as_bytes(), &[0u8; 64][..]);
    assert_eq!(ApmBiosInfo::empty().as_bytes(), &[0u8; 20][..]);
    assert_eq!(EdidInfo::empty().as_bytes(), &[0u8; 128][..]);
    assert_eq!(IstInfo::empty().as_bytes(), &[0u8; 16][..]);
    assert_eq!(SysDescTable::empty().as_bytes(), &[0u8; 16][..]);
    assert_eq!(OlpcOfwHeader::empty().as_bytes(), &[0u8; 16][..]);
    assert_eq!(EfiInfo::empty().as_bytes(), &[0u8; 32][..]);
    assert!(Zeropage::empty().as_bytes().iter().all(|b| *b == 0));
    assert_eq!(Zeropage::empty().as_bytes().len(), 4096);
}

fn sample_kernel(len: usize) -> Vec<u8> {
    let mut k: Vec<u8> = (0..len).map(|i| (i % 251) as u8).collect();
    // handover_offset = 0x190, little-endian, at 0x264
    k[0x264] = 0x90;
    k[0x265] = 0x01;
    k[0x266] = 0;
    k[0x267] = 0;
    k[0x234] = 1;
    k
}

#[test]
fn setup_header_is_read_from_the_image() {
    let k = sample_kernel(0x1000);
    let hdr = SetupHeader::from_image(&k).unwrap();
    assert_eq!(hdr.as_bytes(), &k[0x1F1..0x26C]);
    assert_eq!(hdr.handover_offset(), 0x190);
    assert_eq!(hdr.relocatable_kernel(), 1);
    assert_eq!(hdr.setup_sects(), k[0x1F1]);
    assert_eq!(hdr.boot_flag(), u16::from_le_bytes([k[0x1FE], k[0x1FF]]));
    assert_eq!(hdr.header(), u32::from_le_bytes([k[0x202], k[0x203], k[0x204], k[0x205]]));
    assert_eq!(hdr.version(), u16::from_le_bytes([k[0x206], k[0x207]]));
    assert_eq!(hdr.kernel_alignment(), u32::from_le_bytes([k[0x230], k[0x231], k[0x232], k[0x233]]));
    let mut pref = [0u8; 8];
    pref.copy_from_slice(&k[0x258..0x260]);
    assert_eq!(hdr.pref_address(), u64::from_le_bytes(pref));
}

#[test]
fn short_image_is_malformed() {
    let k = sample_kernel(0x26C);
    assert!(SetupHeader::from_image(&k).is_ok());
    assert_eq!(SetupHeader::from_image(&k[..0x26B]).unwrap_err(), RrubError::MalformedImage);
    assert_eq!(SetupHeader::from_image(&[]).unwrap_err(), RrubError::MalformedImage);
}

#[test]
fn zeropage_setup_header_round_trips() {
    let k = sample_kernel(0x800);
    let hdr = SetupHeader::from_image(&k).unwrap();
    let mut zp = Zeropage::empty();
    zp.set_hdr(&hdr);
    assert_eq!(&zp.as_bytes()[0x1F1..0x26C], &k[0x1F1..0x26C]);
    assert!(zp.as_bytes()[..0x1F1].iter().all(|b| *b == 0));
    assert!(zp.as_bytes()[0x26C..].iter().all(|b| *b == 0));
    assert_eq!(zp.hdr().as_bytes(), hdr.as_bytes());
}

#[test]
fn e820_translation_keeps_order_and_values() {
    let map = vec![
        region(0x0, 0x1000, MemoryType::Available),
        region(0x100000, 0x2000, MemoryType::Acpi),
        region(0x200000, 0x1000, MemoryType::Unusable),
    ];
    let mut zp = Zeropage::empty();
    zp.set_e820_table(&map).unwrap();
    assert_eq!(zp.e820_entries(), 3);
    let expected = [(0x0u64, 0x1000u64, E820Type::Ram), (0x100000, 0x2000, E820Type::Acpi), (0x200000, 0x1000, E820Type::Unusable)];
    for (i, (addr, size, t)) in expected.iter().enumerate() {
        let e = zp.e820_entry(i);
        assert_eq!(e.addr, *addr);
        assert_eq!(e.size, *size);
        assert_eq!(e.entry_type(), Some(*t));
    }
    assert_eq!(zp.e820_entry(3).entry_type(), None);
    // encoding: little-endian start, size and type
    let b = zp.as_bytes();
    assert_eq!(&b[0x2D0 + 20..0x2D0 + 40], &[0, 0, 0x10, 0, 0, 0, 0, 0, 0, 0x20, 0, 0, 0, 0, 0, 0, 3, 0, 0, 0][..]);
    assert_eq!(b[0x1E8], 3);
}

#[test]
fn e820_table_full_and_overflow() {
    let full: Vec<MapRegion> = (0..128u64).map(|i| region(i * 0x1000, 0x1000, MemoryType::Reserved)).collect();
    let mut zp = Zeropage::empty();
    zp.set_e820_table(&full).unwrap();
    assert_eq!(zp.e820_entries(), 128);
    assert_eq!(zp.e820_entry(127).addr, 127 * 0x1000);
    assert_eq!(zp.e820_entry(127).entry_type(), Some(E820Type::Reserved));

    let over: Vec<MapRegion> = (0..129u64).map(|i| region(i * 0x1000, 0x1000, MemoryType::Available)).collect();
    let mut zp = Zeropage::empty();
    assert_eq!(zp.set_e820_table(&over), Err(RrubError::MemoryMapOverflow));
    assert!(zp.as_bytes().iter().all(|b| *b == 0));
}

#[test]
fn empty_memory_map_writes_zero_entries() {
    let mut zp = Zeropage::empty();
    zp.set_e820_table(&[]).unwrap();
    assert_eq!(zp.e820_entries(), 0);
}

#[test]
fn firmware_types_map_to_kernel_types() {
    assert_eq!(E820Type::from_efi(EFI_CONVENTIONAL), E820Type::Ram);
    assert_eq!(E820Type::from_efi(EFI_LOADER_CODE), E820Type::Ram);
    assert_eq!(E820Type::from_efi(EFI_BOOT_SERVICES_DATA), E820Type::Ram);
    assert_eq!(E820Type::from_efi(EFI_ACPI_RECLAIM), E820Type::Acpi);
    assert_eq!(E820Type::from_efi(EFI_ACPI_NON_VOLATILE), E820Type::Nvs);
    assert_eq!(E820Type::from_efi(EFI_UNUSABLE), E820Type::Unusable);
    assert_eq!(E820Type::from_efi(EFI_PERSISTENT_MEMORY), E820Type::Pmem);
    assert_eq!(E820Type::from_efi(EFI_RUNTIME_SERVICES_CODE), E820Type::Reserved);
    assert_eq!(E820Type::from_efi(EFI_MMIO), E820Type::Reserved);
    assert_eq!(E820Type::from_efi(0x8000_0001), E820Type::Reserved);
    assert_eq!(MemoryType::from_efi(EFI_CONVENTIONAL), MemoryType::Available);
    assert_eq!(MemoryType::from_efi(0), MemoryType::Reserved);
}

#[test]
fn e820_codes_and_entries() {
    assert_eq!(E820Type::Ram.code(), 1);
    assert_eq!(E820Type::Pram.code(), 12);
    assert_eq!(E820Type::SoftReserved.code(), 0xefff_ffff);
    assert_eq!(E820Type::from_memory_type(MemoryType::Persistent), E820Type::Pmem);
    assert_eq!(E820Type::from_memory_type(MemoryType::SoftReserved), E820Type::SoftReserved);
    let e = E820Entry::new(0x1000, 0x2000, E820Type::Nvs);
    assert_eq!(e.type_code(), 4);
    assert_eq!(e.entry_type(), Some(E820Type::Nvs));
    let bytes = e.to_bytes();
    assert_eq!(bytes.len(), 20);
    assert_eq!(E820Entry::from_bytes(&bytes, 0), e);
    let odd = E820Entry { addr: 0, size: 0, entry_type: 6 };
    assert_eq!(odd.entry_type(), None);
    let m = region(0x5000, 0x3000, MemoryType::Nvs);
    assert_eq!(E820Entry::from_region(&m), E820Entry::new(0x5000, 0x3000, E820Type::Nvs));
}

#[test]
fn descriptors_become_a_memory_map() {
    let descs = vec![(0x0u64, 1u64, EFI_CONVENTIONAL), (0x100000, 2, EFI_ACPI_RECLAIM), (0x200000, 1, EFI_UNUSABLE)];
    let map = memory_map_from_descriptors(&descs).unwrap();
    assert_eq!(map, vec![
        region(0x0, 0x1000, MemoryType::Available),
        region(0x100000, 0x2000, MemoryType::Acpi),
        region(0x200000, 0x1000, MemoryType::Unusable),
    ]);
    let too_big = vec![(0u64, u64::MAX / 4096 + 1, EFI_CONVENTIONAL)];
    assert_eq!(memory_map_from_descriptors(&too_big), Err(RrubError::Overflow));
    assert_eq!(MapRegion::from_descriptor(0x9000, u64::MAX / 4096, EFI_MMIO).unwrap().size, (u64::MAX / 4096) * 4096);
}
