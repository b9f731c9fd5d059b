//! Recognizer for ELF headers, the format of payloads that are chain-loaded.
use vstd::prelude::*;

use crate::bytes::{
    be16, be32, be64, copy_range, le16, le32, le64, read_u16_be, read_u16_le, read_u32_be,
    read_u32_le, read_u64_be, read_u64_le, zeros,
};
use crate::error::RrubError;

verus! {

pub const ELF_CLASS_32: u8 = 1;

pub const ELF_CLASS_64: u8 = 2;

pub const ELF_DATA_LITTLE_ENDIAN: u8 = 1;

pub const ELF_DATA_BIG_ENDIAN: u8 = 2;

pub const ELF32_HEADER_SIZE: usize = 52;

pub const ELF64_HEADER_SIZE: usize = 64;

/// The four bytes every ELF file starts with: 0x7F, 'E', 'L', 'F'.
pub open spec fn elf_magic() -> Seq<u8> {
    seq![0x7fu8, 0x45u8, 0x4cu8, 0x46u8]
}

pub open spec fn has_elf_magic(b: Seq<u8>) -> bool {
    b.len() >= 4 && b.subrange(0, 4) == elf_magic()
}

/// Whether `prefix` starts with the ELF magic.
pub fn is_elf_magic(prefix: &[u8]) -> (r: bool)
    ensures
        r == has_elf_magic(prefix@),
{
    if prefix.len() < 4 {
        return false;
    }
    let r = prefix[0] == 0x7f && prefix[1] == 0x45 && prefix[2] == 0x4c && prefix[3] == 0x46;
    assert(r ==> prefix@.subrange(0, 4) =~= elf_magic());
    assert(prefix@.subrange(0, 4) == elf_magic() ==> prefix@.subrange(0, 4)[0] == 0x7f
        && prefix@.subrange(0, 4)[1] == 0x45 && prefix@.subrange(0, 4)[2] == 0x4c
        && prefix@.subrange(0, 4)[3] == 0x46);
    r
}

/// The 16-bit field at `off` in the byte order that byte 5 selects.
pub open spec fn elf_field16(b: Seq<u8>, off: int) -> Option<u16> {
    if b[5] == ELF_DATA_LITTLE_ENDIAN {
        Some(le16(b, off) as u16)
    } else if b[5] == ELF_DATA_BIG_ENDIAN {
        Some(be16(b, off) as u16)
    } else {
        None
    }
}

fn read_field16(b: &[u8], off: usize) -> (r: Option<u16>)
    requires
        6 <= b.len(),
        off + 2 <= b.len(),
    ensures
        r == elf_field16(b@, off as int),
{
    if b[5] == ELF_DATA_LITTLE_ENDIAN {
        Some(read_u16_le(b, off))
    } else if b[5] == ELF_DATA_BIG_ENDIAN {
        Some(read_u16_be(b, off))
    } else {
        None
    }
}

/// The 32-bit field at `off` in the byte order that byte 5 selects.
pub open spec fn elf_field32(b: Seq<u8>, off: int) -> Option<u32> {
    if b[5] == ELF_DATA_LITTLE_ENDIAN {
        Some(le32(b, off) as u32)
    } else if b[5] == ELF_DATA_BIG_ENDIAN {
        Some(be32(b, off) as u32)
    } else {
        None
    }
}

fn read_field32(b: &[u8], off: usize) -> (r: Option<u32>)
    requires
        6 <= b.len(),
        off + 4 <= b.len(),
    ensures
        r == elf_field32(b@, off as int),
{
    if b[5] == ELF_DATA_LITTLE_ENDIAN {
        Some(read_u32_le(b, off))
    } else if b[5] == ELF_DATA_BIG_ENDIAN {
        Some(read_u32_be(b, off))
    } else {
        None
    }
}

/// The 64-bit field at `off` in the byte order that byte 5 selects.
pub open spec fn elf_field64(b: Seq<u8>, off: int) -> Option<u64> {
    if b[5] == ELF_DATA_LITTLE_ENDIAN {
        Some(le64(b, off) as u64)
    } else if b[5] == ELF_DATA_BIG_ENDIAN {
        Some(be64(b, off) as u64)
    } else {
        None
    }
}

fn read_field64(b: &[u8], off: usize) -> (r: Option<u64>)
    requires
        6 <= b.len(),
        off + 8 <= b.len(),
    ensures
        r == elf_field64(b@, off as int),
{
    if b[5] == ELF_DATA_LITTLE_ENDIAN {
        Some(read_u64_le(b, off))
    } else if b[5] == ELF_DATA_BIG_ENDIAN {
        Some(read_u64_be(b, off))
    } else {
        None
    }
}

/// The header of a 32-bit ELF file.
#[derive(Debug)]
pub struct Elf32Header {
    bytes: Vec<u8>,
}

impl View for Elf32Header {
    type V = Seq<u8>;

    closed spec fn view(&self) -> Seq<u8> {
        self.bytes@
    }
}

impl Elf32Header {
    pub open spec fn wf(&self) -> bool {
        self@.len() == ELF32_HEADER_SIZE
    }

    /// A header with every byte zero; it is not a valid header.
    pub fn empty() -> (r: Elf32Header)
        ensures
            r.wf(),
            r@ == zeros(ELF32_HEADER_SIZE as nat),
    {
        let bytes = vec![0u8; ELF32_HEADER_SIZE];
        assert(bytes@ =~= zeros(ELF32_HEADER_SIZE as nat));
        Elf32Header { bytes }
    }

    /// The header at the start of `image`. It is refused unless the image
    /// holds a whole header, starts with the ELF magic and declares the
    /// 32-bit class.
    pub fn from_bytes(image: &[u8]) -> (r: Result<Elf32Header, RrubError>)
        ensures
            r is Ok <==> image@.len() >= ELF32_HEADER_SIZE && has_elf_magic(image@) && image@[4] == ELF_CLASS_32,
            r is Err ==> r == Err::<Elf32Header, RrubError>(RrubError::MalformedImage),
            r is Ok ==> r->Ok_0.wf() && r->Ok_0@ == image@.subrange(0, ELF32_HEADER_SIZE as int),
    {
        if image.len() < ELF32_HEADER_SIZE || !is_elf_magic(image) || image[4] != ELF_CLASS_32 {
            return Err(RrubError::MalformedImage);
        }
        Ok(Elf32Header { bytes: copy_range(image, 0, ELF32_HEADER_SIZE) })
    }

    /// Whether the header starts with the ELF magic. The class and data
    /// bytes only select how the rest is read.
    pub fn verify(&self) -> (r: bool)
        requires
            self.wf(),
        ensures
            r == has_elf_magic(self@),
    {
        is_elf_magic(self.bytes.as_slice())
    }

    /// Whether the data byte names a byte order the format defines; when it
    /// does not, every multi-byte accessor gives `None`.
    pub fn has_known_byte_order(&self) -> (r: bool)
        requires
            self.wf(),
        ensures
            r == (self@[5] == ELF_DATA_LITTLE_ENDIAN || self@[5] == ELF_DATA_BIG_ENDIAN),
    {
        self.bytes[5] == ELF_DATA_LITTLE_ENDIAN || self.bytes[5] == ELF_DATA_BIG_ENDIAN
    }

    pub fn class(&self) -> (r: u8)
        requires
            self.wf(),
        ensures
            r == self@[4],
    {
        self.bytes[4]
    }

    /// The byte that selects the byte order of every multi-byte field.
    pub fn data(&self) -> (r: u8)
        requires
            self.wf(),
        ensures
            r == self@[5],
    {
        self.bytes[5]
    }

    pub fn version(&self) -> (r: u8)
        requires
            self.wf(),
        ensures
            r == self@[6],
    {
        self.bytes[6]
    }

    pub fn os_abi(&self) -> (r: u8)
        requires
            self.wf(),
        ensures
            r == self@[7],
    {
        self.bytes[7]
    }

    pub fn abi_version(&self) -> (r: u8)
        requires
            self.wf(),
        ensures
            r == self@[8],
    {
        self.bytes[8]
    }

    pub fn e_type(&self) -> (r: Option<u16>)
        requires
            self.wf(),
        ensures
            r == elf_field16(self@, 16),
    {
        read_field16(self.bytes.as_slice(), 16)
    }

    pub fn e_cpu(&self) -> (r: Option<u16>)
        requires
            self.wf(),
        ensures
            r == elf_field16(self@, 18),
    {
        read_field16(self.bytes.as_slice(), 18)
    }

    pub fn e_version(&self) -> (r: Option<u32>)
        requires
            self.wf(),
        ensures
            r == elf_field32(self@, 20),
    {
        read_field32(self.bytes.as_slice(), 20)
    }

    pub fn e_entry(&self) -> (r: Option<u32>)
        requires
            self.wf(),
        ensures
            r == elf_field32(self@, 24),
    {
        read_field32(self.bytes.as_slice(), 24)
    }

    pub fn e_phoff(&self) -> (r: Option<u32>)
        requires
            self.wf(),
        ensures
            r == elf_field32(self@, 28),
    {
        read_field32(self.bytes.as_slice(), 28)
    }

    pub fn e_shoff(&self) -> (r: Option<u32>)
        requires
            self.wf(),
        ensures
            r == elf_field32(self@, 32),
    {
        read_field32(self.bytes.as_slice(), 32)
    }

    pub fn e_flags(&self) -> (r: Option<u32>)
        requires
            self.wf(),
        ensures
            r == elf_field32(self@, 36),
    {
        read_field32(self.bytes.as_slice(), 36)
    }

    pub fn e_ehsize(&self) -> (r: Option<u16>)
        requires
            self.wf(),
        ensures
            r == elf_field16(self@, 40),
    {
        read_field16(self.bytes.as_slice(), 40)
    }

    pub fn e_phentsize(&self) -> (r: Option<u16>)
        requires
            self.wf(),
        ensures
            r == elf_field16(self@, 42),
    {
        read_field16(self.bytes.as_slice(), 42)
    }

    pub fn e_phnum(&self) -> (r: Option<u16>)
        requires
            self.wf(),
        ensures
            r == elf_field16(self@, 44),
    {
        read_field16(self.bytes.as_slice(), 44)
    }

    pub fn e_shentsize(&self) -> (r: Option<u16>)
        requires
            self.wf(),
        ensures
            r == elf_field16(self@, 46),
    {
        read_field16(self.bytes.as_slice(), 46)
    }

    pub fn e_shnum(&self) -> (r: Option<u16>)
        requires
            self.wf(),
        ensures
            r == elf_field16(self@, 48),
    {
        read_field16(self.bytes.as_slice(), 48)
    }

    pub fn e_shstrndx(&self) -> (r: Option<u16>)
        requires
            self.wf(),
        ensures
            r == elf_field16(self@, 50),
    {
        read_field16(self.bytes.as_slice(), 50)
    }
}

/// The header of a 64-bit ELF file.
#[derive(Debug)]
pub struct Elf64Header {
    bytes: Vec<u8>,
}

impl View for Elf64Header {
    type V = Seq<u8>;

    closed spec fn view(&self) -> Seq<u8> {
        self.bytes@
    }
}

impl Elf64Header {
    pub open spec fn wf(&self) -> bool {
        self@.len() == ELF64_HEADER_SIZE
    }

    /// A header with every byte zero; it is not a valid header.
    pub fn empty() -> (r: Elf64Header)
        ensures
            r.wf(),
            r@ == zeros(ELF64_HEADER_SIZE as nat),
    {
        let bytes = vec![0u8; ELF64_HEADER_SIZE];
        assert(bytes@ =~= zeros(ELF64_HEADER_SIZE as nat));
        Elf64Header { bytes }
    }

    /// The header at the start of `image`. It is refused unless the image
    /// holds a whole header, starts with the ELF magic and declares the
    /// 64-bit class.
    pub fn from_bytes(image: &[u8]) -> (r: Result<Elf64Header, RrubError>)
        ensures
            r is Ok <==> image@.len() >= ELF64_HEADER_SIZE && has_elf_magic(image@) && image@[4] == ELF_CLASS_64,
            r is Err ==> r == Err::<Elf64Header, RrubError>(RrubError::MalformedImage),
            r is Ok ==> r->Ok_0.wf() && r->Ok_0@ == image@.subrange(0, ELF64_HEADER_SIZE as int),
    {
        if image.len() < ELF64_HEADER_SIZE || !is_elf_magic(image) || image[4] != ELF_CLASS_64 {
            return Err(RrubError::MalformedImage);
        }
        Ok(Elf64Header { bytes: copy_range(image, 0, ELF64_HEADER_SIZE) })
    }

    /// Whether the header starts with the ELF magic. The class and data
    /// bytes only select how the rest is read.
    pub fn verify(&self) -> (r: bool)
        requires
            self.wf(),
        ensures
            r == has_elf_magic(self@),
    {
        is_elf_magic(self.bytes.as_slice())
    }

    /// Whether the data byte names a byte order the format defines; when it
    /// does not, every multi-byte accessor gives `None`.
    pub fn has_known_byte_order(&self) -> (r: bool)
        requires
            self.wf(),
        ensures
            r == (self@[5] == ELF_DATA_LITTLE_ENDIAN || self@[5] == ELF_DATA_BIG_ENDIAN),
    {
        self.bytes[5] == ELF_DATA_LITTLE_ENDIAN || self.bytes[5] == ELF_DATA_BIG_ENDIAN
    }

    pub fn class(&self) -> (r: u8)
        requires
            self.wf(),
        ensures
            r == self@[4],
    {
        self.bytes[4]
    }

    /// The byte that selects the byte order of every multi-byte field.
    pub fn data(&self) -> (r: u8)
        requires
            self.wf(),
        ensures
            r == self@[5],
    {
        self.bytes[5]
    }

    pub fn version(&self) -> (r: u8)
        requires
            self.wf(),
        ensures
            r == self@[6],
    {
        self.bytes[6]
    }

    pub fn os_abi(&self) -> (r: u8)
        requires
            self.wf(),
        ensures
            r == self@[7],
    {
        self.bytes[7]
    }

    pub fn abi_version(&self) -> (r: u8)
        requires
            self.wf(),
        ensures
            r == self@[8],
    {
        self.bytes[8]
    }

    pub fn e_type(&self) -> (r: Option<u16>)
        requires
            self.wf(),
        ensures
            r == elf_field16(self@, 16),
    {
        read_field16(self.bytes.as_slice(), 16)
    }

    pub fn e_cpu(&self) -> (r: Option<u16>)
        requires
            self.wf(),
        ensures
            r == elf_field16(self@, 18),
    {
        read_field16(self.bytes.as_slice(), 18)
    }

    pub fn e_version(&self) -> (r: Option<u32>)
        requires
            self.wf(),
        ensures
            r == elf_field32(self@, 20),
    {
        read_field32(self.bytes.as_slice(), 20)
    }

    pub fn e_entry(&self) -> (r: Option<u64>)
        requires
            self.wf(),
        ensures
            r == elf_field64(self@, 24),
    {
        read_field64(self.bytes.as_slice(), 24)
    }

    pub fn e_phoff(&self) -> (r: Option<u64>)
        requires
            self.wf(),
        ensures
            r == elf_field64(self@, 32),
    {
        read_field64(self.bytes.as_slice(), 32)
    }

    pub fn e_shoff(&self) -> (r: Option<u64>)
        requires
            self.wf(),
        ensures
            r == elf_field64(self@, 40),
    {
        read_field64(self.bytes.as_slice(), 40)
    }

    pub fn e_flags(&self) -> (r: Option<u32>)
        requires
            self.wf(),
        ensures
            r == elf_field32(self@, 48),
    {
        read_field32(self.bytes.as_slice(), 48)
    }

    pub fn e_ehsize(&self) -> (r: Option<u16>)
        requires
            self.wf(),
        ensures
            r == elf_field16(self@, 52),
    {
        read_field16(self.bytes.as_slice(), 52)
    }

    pub fn e_phentsize(&self) -> (r: Option<u16>)
        requires
            self.wf(),
        ensures
            r == elf_field16(self@, 54),
    {
        read_field16(self.bytes.as_slice(), 54)
    }

    pub fn e_phnum(&self) -> (r: Option<u16>)
        requires
            self.wf(),
        ensures
            r == elf_field16(self@, 56),
    {
        read_field16(self.bytes.as_slice(), 56)
    }

    pub fn e_shentsize(&self) -> (r: Option<u16>)
        requires
            self.wf(),
        ensures
            r == elf_field16(self@, 58),
    {
        read_field16(self.bytes.as_slice(), 58)
    }

    pub fn e_shnum(&self) -> (r: Option<u16>)
        requires
            self.wf(),
        ensures
            r == elf_field16(self@, 60),
    {
        read_field16(self.bytes.as_slice(), 60)
    }

    pub fn e_shstrndx(&self) -> (r: Option<u16>)
        requires
            self.wf(),
        ensures
            r == elf_field16(self@, 62),
    {
        read_field16(self.bytes.as_slice(), 62)
    }
}

/// A 32-bit program header.
#[derive(Debug, Clone, Copy, PartialEq, Eq, Structural)]
pub struct Elf32ProgramHeader {
    pub p_type: u32,
    pub p_offset: u32,
    pub p_vaddr: u32,
    pub p_paddr: u32,
    pub p_fsize: u32,
    pub p_msize: u32,
    pub p_flags: u32,
    pub p_align: u32,
}

/// A 64-bit program header.
#[derive(Debug, Clone, Copy, PartialEq, Eq, Structural)]
pub struct Elf64ProgramHeader {
    pub p_type: u32,
    pub p_flags: u32,
    pub p_offset: u64,
    pub p_vaddr: u64,
    pub p_paddr: u64,
    pub p_fsize: u64,
    pub p_msize: u64,
    pub p_align: u64,
}

} // verus!
