//! The kernel's native memory-map entries (E820 format).
use vstd::prelude::*;

use crate::bytes::{le32, le64, le_bytes, read_u32_le, read_u64_le, u32_to_le_bytes, u64_to_le_bytes};
use crate::firmware::memory::{efi_class, MemoryRegion, MemoryType};

verus! {

/// Size of one encoded entry: start, size and type.
pub const E820_ENTRY_SIZE: usize = 20;

/// Kinds of memory in the kernel's memory map.
#[derive(Debug, Clone, Copy, PartialEq, Eq, Structural)]
pub enum E820Type {
    Ram,
    Reserved,
    Acpi,
    Nvs,
    Unusable,
    Pmem,
    Pram,
    SoftReserved,
}

/// The number the boot protocol gives each kind.
pub open spec fn e820_code(t: E820Type) -> u32 {
    match t {
        E820Type::Ram => 1,
        E820Type::Reserved => 2,
        E820Type::Acpi => 3,
        E820Type::Nvs => 4,
        E820Type::Unusable => 5,
        E820Type::Pmem => 7,
        E820Type::Pram => 12,
        E820Type::SoftReserved => 0xefff_ffff,
    }
}

/// The kernel's kind for a kind of the firmware memory map.
pub open spec fn e820_of(t: MemoryType) -> E820Type {
    match t {
        MemoryType::Available => E820Type::Ram,
        MemoryType::Reserved => E820Type::Reserved,
        MemoryType::Acpi => E820Type::Acpi,
        MemoryType::Nvs => E820Type::Nvs,
        MemoryType::Unusable => E820Type::Unusable,
        MemoryType::Persistent => E820Type::Pmem,
        MemoryType::SoftReserved => E820Type::SoftReserved,
    }
}

impl E820Type {
    pub fn code(self) -> (r: u32)
        ensures
            r == e820_code(self),
    {
        match self {
            E820Type::Ram => 1,
            E820Type::Reserved => 2,
            E820Type::Acpi => 3,
            E820Type::Nvs => 4,
            E820Type::Unusable => 5,
            E820Type::Pmem => 7,
            E820Type::Pram => 12,
            E820Type::SoftReserved => 0xefff_ffff,
        }
    }

    pub fn from_memory_type(t: MemoryType) -> (r: E820Type)
        ensures
            r == e820_of(t),
    {
        match t {
            MemoryType::Available => E820Type::Ram,
            MemoryType::Reserved => E820Type::Reserved,
            MemoryType::Acpi => E820Type::Acpi,
            MemoryType::Nvs => E820Type::Nvs,
            MemoryType::Unusable => E820Type::Unusable,
            MemoryType::Persistent => E820Type::Pmem,
            MemoryType::SoftReserved => E820Type::SoftReserved,
        }
    }

    /// The kernel's kind for a firmware memory type number.
    pub fn from_efi(tag: u32) -> (r: E820Type)
        ensures
            r == e820_of(efi_class(tag)),
    {
        E820Type::from_memory_type(MemoryType::from_efi(tag))
    }
}

/// The kind a type number stands for, if any.
pub open spec fn e820_type_of_code(code: u32) -> Option<E820Type> {
    if code == 1 {
        Some(E820Type::Ram)
    } else if code == 2 {
        Some(E820Type::Reserved)
    } else if code == 3 {
        Some(E820Type::Acpi)
    } else if code == 4 {
        Some(E820Type::Nvs)
    } else if code == 5 {
        Some(E820Type::Unusable)
    } else if code == 7 {
        Some(E820Type::Pmem)
    } else if code == 12 {
        Some(E820Type::Pram)
    } else if code == 0xefff_ffff {
        Some(E820Type::SoftReserved)
    } else {
        None
    }
}

/// One entry of the kernel's memory map: start and size in bytes, and the
/// type number.
#[derive(Debug, Clone, Copy, PartialEq, Eq, Structural)]
pub struct E820Entry {
    pub addr: u64,
    pub size: u64,
    pub entry_type: u32,
}

/// The entry that stands for a range of the firmware memory map.
pub open spec fn e820_entry_of(m: MemoryRegion) -> E820Entry {
    E820Entry { addr: m.start, size: m.size, entry_type: e820_code(e820_of(m.region_type)) }
}

/// The little-endian encoding of an entry: start, size, type.
pub open spec fn e820_entry_bytes(e: E820Entry) -> Seq<u8> {
    le_bytes(e.addr as int, 8) + le_bytes(e.size as int, 8) + le_bytes(e.entry_type as int, 4)
}

impl E820Entry {
    pub fn new(addr: u64, size: u64, t: E820Type) -> (r: E820Entry)
        ensures
            r.addr == addr,
            r.size == size,
            r.entry_type == e820_code(t),
    {
        E820Entry { addr, size, entry_type: t.code() }
    }

    /// The entry for a range of the firmware memory map.
    pub fn from_region(m: &MemoryRegion) -> (r: E820Entry)
        ensures
            r == e820_entry_of(*m),
    {
        E820Entry {
            addr: m.start,
            size: m.size,
            entry_type: E820Type::from_memory_type(m.region_type).code(),
        }
    }

    pub fn type_code(&self) -> (r: u32)
        ensures
            r == self.entry_type,
    {
        self.entry_type
    }

    /// The kind of the entry, if its type number is one the protocol names.
    pub fn entry_type(&self) -> (r: Option<E820Type>)
        ensures
            r == e820_type_of_code(self.entry_type),
    {
        match self.entry_type {
            1 => Some(E820Type::Ram),
            2 => Some(E820Type::Reserved),
            3 => Some(E820Type::Acpi),
            4 => Some(E820Type::Nvs),
            5 => Some(E820Type::Unusable),
            7 => Some(E820Type::Pmem),
            12 => Some(E820Type::Pram),
            0xefff_ffff => Some(E820Type::SoftReserved),
            _ => None,
        }
    }

    /// The entry's 20 bytes, little-endian.
    pub fn to_bytes(&self) -> (r: Vec<u8>)
        ensures
            r@ == e820_entry_bytes(*self),
    {
        let a = u64_to_le_bytes(self.addr);
        let s = u64_to_le_bytes(self.size);
        let t = u32_to_le_bytes(self.entry_type);
        let mut r: Vec<u8> = Vec::with_capacity(E820_ENTRY_SIZE);
        let mut i: usize = 0;
        while i < 8
            invariant
                0 <= i <= 8,
                r@ == a@.subrange(0, i as int),
            decreases 8 - i,
        {
            r.push(a[i]);
            i = i + 1;
            assert(r@ =~= a@.subrange(0, i as int));
        }
        i = 0;
        while i < 8
            invariant
                0 <= i <= 8,
                r@ == a@ + s@.subrange(0, i as int),
            decreases 8 - i,
        {
            r.push(s[i]);
            i = i + 1;
            assert(r@ =~= a@ + s@.subrange(0, i as int));
        }
        i = 0;
        while i < 4
            invariant
                0 <= i <= 4,
                r@ == a@ + s@ + t@.subrange(0, i as int),
            decreases 4 - i,
        {
            r.push(t[i]);
            i = i + 1;
            assert(r@ =~= a@ + s@ + t@.subrange(0, i as int));
        }
        assert(a@.subrange(0, 8) =~= a@);
        assert(s@.subrange(0, 8) =~= s@);
        assert(t@.subrange(0, 4) =~= t@);
        r
    }

    /// The entry encoded at `off` in `b`.
    pub fn from_bytes(b: &[u8], off: usize) -> (r: E820Entry)
        requires
            off + E820_ENTRY_SIZE <= b.len(),
        ensures
            r.addr as int == le64(b@, off as int),
            r.size as int == le64(b@, off + 8),
            r.entry_type as int == le32(b@, off + 16),
    {
        E820Entry {
            addr: read_u64_le(b, off),
            size: read_u64_le(b, off + 8),
            entry_type: read_u32_le(b, off + 16),
        }
    }
}

} // verus!
