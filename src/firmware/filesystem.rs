//! Identifiers of volumes and the list of file systems the firmware offers.
use vstd::prelude::*;

use uuid::Uuid as RealUuid;

use crate::bytes::{be_bytes, le_bytes, u32_to_be_bytes, u32_to_le_bytes, u64_to_be_bytes, u64_to_le_bytes};

verus! {

/// Relies on the `uuid` crate's UUID type only as a value carried through: nothing here
/// looks inside it.
#[verifier::external_type_specification]
#[verifier::external_body]
pub struct ExRealUuid(RealUuid);

/// A four-byte volume serial number.
#[derive(Debug, Copy, Clone, Eq, PartialEq, Ord, PartialOrd, Hash)]
pub struct VolumeId32(pub [u8; 4]);

impl VolumeId32 {
    pub fn nil() -> (r: Self)
        ensures
            r.0@ == seq![0u8, 0u8, 0u8, 0u8],
    {
        let r = VolumeId32([0u8, 0u8, 0u8, 0u8]);
        assert(r.0@ =~= seq![0u8, 0u8, 0u8, 0u8]);
        r
    }

    pub fn max() -> (r: Self)
        ensures
            r.0@ == seq![0xffu8, 0xffu8, 0xffu8, 0xffu8],
    {
        let r = VolumeId32([0xffu8, 0xffu8, 0xffu8, 0xffu8]);
        assert(r.0@ =~= seq![0xffu8, 0xffu8, 0xffu8, 0xffu8]);
        r
    }

    pub fn new(value: [u8; 4]) -> (r: Self)
        ensures
            r.0 == value,
    {
        VolumeId32(value)
    }

    pub fn from_u32_le(value: u32) -> (r: VolumeId32)
        ensures
            r.0@ == le_bytes(value as int, 4),
    {
        VolumeId32(u32_to_le_bytes(value))
    }

    pub fn from_u32_be(value: u32) -> (r: VolumeId32)
        ensures
            r.0@ == be_bytes(value as int, 4),
    {
        VolumeId32(u32_to_be_bytes(value))
    }
}

/// An eight-byte volume serial number.
#[derive(Debug, Copy, Clone, Eq, PartialEq, Ord, PartialOrd, Hash)]
pub struct VolumeId64(pub [u8; 8]);

impl VolumeId64 {
    pub fn nil() -> (r: Self)
        ensures
            r.0@ == Seq::new(8, |i: int| 0u8),
    {
        let r = VolumeId64([0u8, 0u8, 0u8, 0u8, 0u8, 0u8, 0u8, 0u8]);
        assert(r.0@ =~= Seq::new(8, |i: int| 0u8));
        r
    }

    pub fn max() -> (r: Self)
        ensures
            r.0@ == Seq::new(8, |i: int| 0xffu8),
    {
        let r = VolumeId64([0xffu8, 0xffu8, 0xffu8, 0xffu8, 0xffu8, 0xffu8, 0xffu8, 0xffu8]);
        assert(r.0@ =~= Seq::new(8, |i: int| 0xffu8));
        r
    }

    pub fn new(value: [u8; 8]) -> (r: Self)
        ensures
            r.0 == value,
    {
        VolumeId64(value)
    }

    pub fn from_u64_le(value: u64) -> (r: VolumeId64)
        ensures
            r.0@ == le_bytes(value as int, 8),
    {
        VolumeId64(u64_to_le_bytes(value))
    }

    pub fn from_u64_be(value: u64) -> (r: VolumeId64)
        ensures
            r.0@ == be_bytes(value as int, 8),
    {
        VolumeId64(u64_to_be_bytes(value))
    }
}

/// How a volume is named: by a UUID or by a serial number.
#[derive(Debug, Copy, Clone, Eq, PartialEq, Ord, PartialOrd, Hash)]
pub enum Uuid {
    RealUuid(RealUuid),
    VolumeId32(VolumeId32),
    VolumeId64(VolumeId64),
}

/// A file system the firmware can read.
#[derive(Debug, Copy, Clone)]
pub struct Filesystem {}

/// The file systems found, each with the identifier of its volume.
#[derive(Debug, Clone)]
pub struct FilesystemsList {
    filesystems: Vec<(Uuid, Filesystem)>,
}

} // verus!
