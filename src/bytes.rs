//! Fixed-width integers in little- and big-endian byte order, and byte-range
//! copies, as the binary layouts of the boot protocol need them.
use vstd::prelude::*;

verus! {

/// The little-endian value of the two bytes at `off`.
pub open spec fn le16(b: Seq<u8>, off: int) -> int {
    b[off] as int + b[off + 1] as int * 0x100
}

/// The little-endian value of the four bytes at `off`.
pub open spec fn le32(b: Seq<u8>, off: int) -> int {
    le16(b, off) + le16(b, off + 2) * 0x1_0000
}

/// The little-endian value of the eight bytes at `off`.
pub open spec fn le64(b: Seq<u8>, off: int) -> int {
    le32(b, off) + le32(b, off + 4) * 0x1_0000_0000
}

/// The big-endian value of the two bytes at `off`.
pub open spec fn be16(b: Seq<u8>, off: int) -> int {
    b[off] as int * 0x100 + b[off + 1] as int
}

/// The big-endian value of the four bytes at `off`.
pub open spec fn be32(b: Seq<u8>, off: int) -> int {
    be16(b, off) * 0x1_0000 + be16(b, off + 2)
}

/// The big-endian value of the eight bytes at `off`.
pub open spec fn be64(b: Seq<u8>, off: int) -> int {
    be32(b, off) * 0x1_0000_0000 + be32(b, off + 4)
}

/// Byte `i` (counting from the least significant) of `v`.
pub open spec fn byte_of(v: int, i: int) -> u8 {
    ((v / pow256(i)) % 0x100) as u8
}

pub open spec fn pow256(i: int) -> int
    decreases i,
{
    if i <= 0 {
        1
    } else {
        0x100 * pow256(i - 1)
    }
}

/// The `n` bytes of `v`, least significant first.
pub open spec fn le_bytes(v: int, n: nat) -> Seq<u8> {
    Seq::new(n, |i: int| byte_of(v, i))
}

/// The `n` bytes of `v`, most significant first.
pub open spec fn be_bytes(v: int, n: nat) -> Seq<u8> {
    Seq::new(n, |i: int| byte_of(v, n - 1 - i))
}

/// `n` zero bytes.
pub open spec fn zeros(n: nat) -> Seq<u8> {
    Seq::new(n, |i: int| 0u8)
}

/// `d` with the bytes from `off` on replaced by `s`.
pub open spec fn splice(d: Seq<u8>, off: int, s: Seq<u8>) -> Seq<u8> {
    d.subrange(0, off) + s + d.subrange(off + s.len(), d.len() as int)
}

pub fn read_u16_le(b: &[u8], off: usize) -> (r: u16)
    requires
        off + 2 <= b.len(),
    ensures
        r as int == le16(b@, off as int),
{
    b[off] as u16 + b[off + 1] as u16 * 0x100
}

pub fn read_u32_le(b: &[u8], off: usize) -> (r: u32)
    requires
        off + 4 <= b.len(),
    ensures
        r as int == le32(b@, off as int),
{
    let lo = read_u16_le(b, off) as u32;
    let hi = read_u16_le(b, off + 2) as u32;
    lo + hi * 0x1_0000
}

pub fn read_u64_le(b: &[u8], off: usize) -> (r: u64)
    requires
        off + 8 <= b.len(),
    ensures
        r as int == le64(b@, off as int),
{
    let lo = read_u32_le(b, off) as u64;
    let hi = read_u32_le(b, off + 4) as u64;
    lo + hi * 0x1_0000_0000
}

pub fn read_u16_be(b: &[u8], off: usize) -> (r: u16)
    requires
        off + 2 <= b.len(),
    ensures
        r as int == be16(b@, off as int),
{
    b[off] as u16 * 0x100 + b[off + 1] as u16
}

pub fn read_u32_be(b: &[u8], off: usize) -> (r: u32)
    requires
        off + 4 <= b.len(),
    ensures
        r as int == be32(b@, off as int),
{
    let hi = read_u16_be(b, off) as u32;
    let lo = read_u16_be(b, off + 2) as u32;
    hi * 0x1_0000 + lo
}

pub fn read_u64_be(b: &[u8], off: usize) -> (r: u64)
    requires
        off + 8 <= b.len(),
    ensures
        r as int == be64(b@, off as int),
{
    let hi = read_u32_be(b, off) as u64;
    let lo = read_u32_be(b, off + 4) as u64;
    hi * 0x1_0000_0000 + lo
}

pub fn u32_to_le_bytes(v: u32) -> (r: [u8; 4])
    ensures
        r@ == le_bytes(v as int, 4),
{
    let r = [(v % 0x100) as u8, ((v / 0x100) % 0x100) as u8, ((v / 0x1_0000) % 0x100) as u8, ((v
        / 0x100_0000) % 0x100) as u8];
    proof {
        reveal_with_fuel(pow256, 4);
    }
    assert(r@ =~= le_bytes(v as int, 4));
    r
}

pub fn u32_to_be_bytes(v: u32) -> (r: [u8; 4])
    ensures
        r@ == be_bytes(v as int, 4),
{
    let le = u32_to_le_bytes(v);
    let r = [le[3], le[2], le[1], le[0]];
    assert(r@ =~= be_bytes(v as int, 4));
    r
}

pub fn u64_to_le_bytes(v: u64) -> (r: [u8; 8])
    ensures
        r@ == le_bytes(v as int, 8),
{
    let r = [
        (v % 0x100) as u8,
        ((v / 0x100) % 0x100) as u8,
        ((v / 0x1_0000) % 0x100) as u8,
        ((v / 0x100_0000) % 0x100) as u8,
        ((v / 0x1_0000_0000) % 0x100) as u8,
        ((v / 0x100_0000_0000) % 0x100) as u8,
        ((v / 0x1_0000_0000_0000) % 0x100) as u8,
        ((v / 0x100_0000_0000_0000) % 0x100) as u8,
    ];
    proof {
        reveal_with_fuel(pow256, 8);
    }
    assert(r@ =~= le_bytes(v as int, 8));
    r
}

pub fn u64_to_be_bytes(v: u64) -> (r: [u8; 8])
    ensures
        r@ == be_bytes(v as int, 8),
{
    let le = u64_to_le_bytes(v);
    let r = [le[7], le[6], le[5], le[4], le[3], le[2], le[1], le[0]];
    assert(r@ =~= be_bytes(v as int, 8));
    r
}

/// Overwrites `dst[off .. off + src.len()]` with `src`.
pub fn copy_into(dst: &mut Vec<u8>, off: usize, src: &[u8])
    requires
        off + src@.len() <= old(dst)@.len(),
    ensures
        final(dst)@ == splice(old(dst)@, off as int, src@),
{
    let n = src.len();
    let total = dst.len();
    let mut i: usize = 0;
    while i < n
        invariant
            n == src@.len(),
            total == dst@.len(),
            off + n <= total,
            dst@.len() == old(dst)@.len(),
            0 <= i <= n,
            forall|j: int| 0 <= j < off ==> dst@[j] == old(dst)@[j],
            forall|j: int| off + n <= j < dst@.len() ==> dst@[j] == old(dst)@[j],
            forall|j: int| off <= j < off + i ==> dst@[j] == src@[j - off],
        decreases n - i,
    {
        dst.set(off + i, src[i]);
        i = i + 1;
    }
    assert(dst@ =~= splice(old(dst)@, off as int, src@));
}

/// A copy of `src[off .. off + len]`.
pub fn copy_range(src: &[u8], off: usize, len: usize) -> (r: Vec<u8>)
    requires
        off + len <= src.len(),
    ensures
        r@ == src@.subrange(off as int, off + len),
{
    let mut r: Vec<u8> = Vec::with_capacity(len);
    let mut i: usize = 0;
    while i < len
        invariant
            off + len <= src.len(),
            0 <= i <= len,
            r@ == src@.subrange(off as int, off + i),
        decreases len - i,
    {
        r.push(src[off + i]);
        i = i + 1;
        assert(r@ =~= src@.subrange(off as int, off + i));
    }
    r
}

} // verus!
