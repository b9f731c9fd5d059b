use rrub::error::RrubError;
use rrub::mem::elf::{is_elf_magic, Elf32Header, Elf64Header};

/// A small deterministic generator, enough to sample prefixes.
fn next(state: &mut u64) -> u64 {
    *state = state.wrapping_mul(6364136223846793005).wrapping_add(1442695040888963407);
    *state >> 16
}

#[test]
fn only_the_exact_magic_is_accepted() {
    assert!(is_elf_magic(&[0x7F, b'E', b'L', b'F']));
    assert!(is_elf_magic(&[0x7F, b'E', b'L', b'F', 2, 1]));
    let mut state = 0x1234_5678u64;
    for _ in 0..200_000 {
        let v = next(&mut state) as u32;
        let prefix = v.to_le_bytes();
        assert_eq!(is_elf_magic(&prefix), prefix == [0x7F, b'E', b'L', b'F']);
    }
    // one byte off in each position
    for pos in 0..4 {
        for delta in 1..=255u8 {
            let mut p = [0x7F, b'E', b'L', b'F'];
            p[pos] = p[pos].wrapping_add(delta);
            assert!(!is_elf_magic(&p));
        }
    }
    assert!(!is_elf_magic(&[0x7F, b'E', b'L']));
    assert!(!is_elf_magic(&[]));
}

fn elf64(data: u8) -> Vec<u8> {
    let mut h = vec![0u8; 64];
    h[..4].copy_from_slice(&[0x7F, b'E', b'L', b'F']);
    h[4] = 2;
    h[5] = data;
    h[6] = 1;
    let put = |h: &mut Vec<u8>, off: usize, bytes: &[u8]| h[off..off + bytes.len()].copy_from_slice(bytes);
    if data == 2 {
        put(&mut h, 16, &2u16.to_be_bytes());
        put(&mut h, 18, &0x3Eu16.to_be_bytes());
        put(&mut h, 20, &1u32.to_be_bytes());
        put(&mut h, 24, &0xFFFF_FFFF_8100_0000u64.to_be_bytes());
        put(&mut h, 32, &64u64.to_be_bytes());
        put(&mut h, 56, &3u16.to_be_bytes());
        put(&mut h, 62, &9u16.to_be_bytes());
    } else {
        put(&mut h, 16, &2u16.to_le_bytes());
        put(&mut h, 18, &0x3Eu16.to_le_bytes());
        put(&mut h, 20, &1u32.to_le_bytes());
        put(&mut h, 24, &0xFFFF_FFFF_8100_0000u64.to_le_bytes());
        put(&mut h, 32, &64u64.to_le_bytes());
        put(&mut h, 56, &3u16.to_le_bytes());
        put(&mut h, 62, &9u16.to_le_bytes());
    }
    h
}

#[test]
fn elf64_fields_follow_the_data_byte() {
    for data in [1u8, 2u8] {
        let h = Elf64Header::from_bytes(&elf64(data)).unwrap();
        assert!(h.verify());
        assert!(h.has_known_byte_order());
        assert_eq!(h.class(), 2);
        assert_eq!(h.data(), data);
        assert_eq!(h.version(), 1);
        assert_eq!(h.e_type(), Some(2));
        assert_eq!(h.e_cpu(), Some(0x3E));
        assert_eq!(h.e_version(), Some(1));
        assert_eq!(h.e_entry(), Some(0xFFFF_FFFF_8100_0000));
        assert_eq!(h.e_phoff(), Some(64));
        assert_eq!(h.e_phnum(), Some(3));
        assert_eq!(h.e_shstrndx(), Some(9));
        assert_eq!(h.e_shoff(), Some(0));
        assert_eq!(h.e_flags(), Some(0));
    }
    let h = Elf64Header::from_bytes(&elf64(3)).unwrap();
    assert!(h.verify());
    assert!(!h.has_known_byte_order());
    assert_eq!(h.e_type(), None);
    assert_eq!(h.e_entry(), None);
}

#[test]
fn elf32_fields_and_refusals() {
    let mut h = vec![0u8; 52];
    h[..4].copy_from_slice(&[0x7F, b'E', b'L', b'F']);
    h[4] = 1;
    h[5] = 2;
    h[24..28].copy_from_slice(&0x0010_0000u32.to_be_bytes());
    h[42..44].copy_from_slice(&32u16.to_be_bytes());
    let e = Elf32Header::from_bytes(&h).unwrap();
    assert!(e.verify());
    assert_eq!(e.e_entry(), Some(0x0010_0000));
    assert_eq!(e.e_phentsize(), Some(32));
    assert_eq!(e.os_abi(), 0);
    assert_eq!(e.abi_version(), 0);

    assert_eq!(Elf64Header::from_bytes(&h).err(), Some(RrubError::MalformedImage));
    assert_eq!(Elf32Header::from_bytes(&h[..51]).err(), Some(RrubError::MalformedImage));
    let mut bad = h.clone();
    bad[0] = 0x7E;
    assert_eq!(Elf32Header::from_bytes(&bad).err(), Some(RrubError::MalformedImage));
    assert_eq!(Elf64Header::from_bytes(&elf64(1)[..63]).err(), Some(RrubError::MalformedImage));
}

#[test]
fn empty_headers_are_not_valid() {
    let e = Elf32Header::empty();
    assert!(!e.verify());
    assert_eq!(e.e_type(), None);
    let e = Elf64Header::empty();
    assert!(!e.verify());
    assert!(!e.has_known_byte_order());
    assert_eq!(e.class(), 0);
}
