//! The physical memory map as the firmware reports it.
use vstd::prelude::*;

use crate::error::RrubError;

verus! {

/// Memory type numbers of the UEFI specification.
pub const EFI_RESERVED: u32 = 0;

pub const EFI_LOADER_CODE: u32 = 1;

pub const EFI_LOADER_DATA: u32 = 2;

pub const EFI_BOOT_SERVICES_CODE: u32 = 3;

pub const EFI_BOOT_SERVICES_DATA: u32 = 4;

pub const EFI_RUNTIME_SERVICES_CODE: u32 = 5;

pub const EFI_RUNTIME_SERVICES_DATA: u32 = 6;

pub const EFI_CONVENTIONAL: u32 = 7;

pub const EFI_UNUSABLE: u32 = 8;

pub const EFI_ACPI_RECLAIM: u32 = 9;

pub const EFI_ACPI_NON_VOLATILE: u32 = 10;

pub const EFI_MMIO: u32 = 11;

pub const EFI_MMIO_PORT_SPACE: u32 = 12;

pub const EFI_PAL_CODE: u32 = 13;

pub const EFI_PERSISTENT_MEMORY: u32 = 14;

/// Size of a firmware page, in bytes.
pub const EFI_PAGE_SIZE: u64 = 4096;

/// Where a page request may be placed.
pub enum AllocationType {
    AnyPages,
    Address(u64),
}

/// What a range of physical memory may be used for.
#[derive(Debug, Clone, Copy, PartialEq, Eq, Structural)]
pub enum MemoryType {
    Available,
    Reserved,
    Acpi,
    Nvs,
    Unusable,
    Persistent,
    SoftReserved,
}

/// The class of a firmware memory type: memory that the loader, boot
/// services or nobody uses is available once the firmware is left; ACPI
/// tables, ACPI non-volatile storage, unusable and persistent memory keep
/// their kinds; everything else, runtime services and I/O ranges included,
/// is reserved.
pub open spec fn efi_class(tag: u32) -> MemoryType {
    if tag == EFI_CONVENTIONAL || tag == EFI_LOADER_CODE || tag == EFI_LOADER_DATA || tag
        == EFI_BOOT_SERVICES_CODE || tag == EFI_BOOT_SERVICES_DATA {
        MemoryType::Available
    } else if tag == EFI_ACPI_RECLAIM {
        MemoryType::Acpi
    } else if tag == EFI_ACPI_NON_VOLATILE {
        MemoryType::Nvs
    } else if tag == EFI_UNUSABLE {
        MemoryType::Unusable
    } else if tag == EFI_PERSISTENT_MEMORY {
        MemoryType::Persistent
    } else {
        MemoryType::Reserved
    }
}

impl MemoryType {
    /// The class of a firmware memory type number.
    pub fn from_efi(tag: u32) -> (r: MemoryType)
        ensures
            r == efi_class(tag),
    {
        match tag {
            EFI_CONVENTIONAL | EFI_LOADER_CODE | EFI_LOADER_DATA | EFI_BOOT_SERVICES_CODE
            | EFI_BOOT_SERVICES_DATA => MemoryType::Available,
            EFI_ACPI_RECLAIM => MemoryType::Acpi,
            EFI_ACPI_NON_VOLATILE => MemoryType::Nvs,
            EFI_UNUSABLE => MemoryType::Unusable,
            EFI_PERSISTENT_MEMORY => MemoryType::Persistent,
            _ => MemoryType::Reserved,
        }
    }
}

/// One range of the memory map: start and size in bytes, and its type.
#[derive(Debug, Clone, Copy, PartialEq, Eq, Structural)]
pub struct MemoryRegion {
    pub start: u64,
    pub size: u64,
    pub region_type: MemoryType,
}

pub type MemoryMap = Vec<MemoryRegion>;

/// The map entry for a firmware descriptor, when its size fits in 64 bits.
pub open spec fn region_of(d: (u64, u64, u32)) -> Option<MemoryRegion> {
    if d.1 * EFI_PAGE_SIZE <= u64::MAX {
        Some(
            MemoryRegion {
                start: d.0,
                size: (d.1 * EFI_PAGE_SIZE) as u64,
                region_type: efi_class(d.2),
            },
        )
    } else {
        None
    }
}

/// Whether `m` is the memory map for the descriptors `d`, entry for entry.
pub open spec fn is_map_of(m: Seq<MemoryRegion>, d: Seq<(u64, u64, u32)>) -> bool {
    m.len() == d.len() && forall|i: int| 0 <= i < d.len() ==> region_of(#[trigger] d[i]) == Some(m[i])
}

impl MemoryRegion {
    /// The map entry for a firmware descriptor of `page_count` pages at
    /// `phys_start` of type `tag`.
    pub fn from_descriptor(phys_start: u64, page_count: u64, tag: u32) -> (r: Result<
        MemoryRegion,
        RrubError,
    >)
        ensures
            r matches Ok(m) ==> region_of((phys_start, page_count, tag)) == Some(m),
            r is Err ==> region_of((phys_start, page_count, tag)) is None && r
                == Err::<MemoryRegion, RrubError>(RrubError::Overflow),
    {
        if page_count > u64::MAX / EFI_PAGE_SIZE {
            return Err(RrubError::Overflow);
        }
        Ok(
            MemoryRegion {
                start: phys_start,
                size: page_count * EFI_PAGE_SIZE,
                region_type: MemoryType::from_efi(tag),
            },
        )
    }
}

/// The memory map for a list of firmware descriptors, in the same order.
/// A descriptor whose size does not fit in 64 bits fails the whole list.
pub fn memory_map_from_descriptors(descs: &Vec<(u64, u64, u32)>) -> (r: Result<
    MemoryMap,
    RrubError,
>)
    ensures
        r is Ok <==> forall|i: int| 0 <= i < descs@.len() ==> (#[trigger] region_of(descs@[i])) is Some,
        r is Err ==> r == Err::<MemoryMap, RrubError>(RrubError::Overflow),
        r matches Ok(m) ==> is_map_of(m@, descs@),
{
    let mut map: MemoryMap = Vec::new();
    let mut i: usize = 0;
    while i < descs.len()
        invariant
            0 <= i <= descs@.len(),
            map@.len() == i,
            forall|j: int| 0 <= j < i ==> region_of(#[trigger] descs@[j]) == Some(map@[j]),
        decreases descs@.len() - i,
    {
        let d = descs[i];
        match MemoryRegion::from_descriptor(d.0, d.1, d.2) {
            Ok(m) => map.push(m),
            Err(e) => {
                assert(region_of(descs@[i as int]) is None);
                return Err(e);
            },
        }
        i = i + 1;
    }
    Ok(map)
}

} // verus!
