use rrub::error::RrubError;
use rrub::mem::{check_placement, MemAttr, MemoryBackend, MemoryRegion, PageAllocator, PAGE_SIZE};

/// A page allocator that records every call and answers as configured.
struct MockBackend {
    /// Address handed back instead of the one asked for, if any.
    relocate_to: Option<usize>,
    /// Answer every allocation with this error, if any.
    fail_with: Option<RrubError>,
    next_free: usize,
    allocations: Vec<(Option<usize>, usize)>,
    releases: Vec<(usize, usize)>,
    attr_updates: usize,
}

impl MockBackend {
    fn new() -> MockBackend {
        MockBackend {
            relocate_to: None,
            fail_with: None,
            next_free: 0x10_0000,
            allocations: Vec::new(),
            releases: Vec::new(),
            attr_updates: 0,
        }
    }
}

impl MemoryBackend for MockBackend {
    fn allocate(&mut self, addr: Option<usize>, page_count: usize) -> Result<usize, RrubError> {
        self.allocations.push((addr, page_count));
        if let Some(e) = self.fail_with {
            return Err(e);
        }
        if let Some(other) = self.relocate_to {
            return Ok(other);
        }
        match addr {
            Some(a) => Ok(a),
            None => {
                let a = self.next_free;
                self.next_free += page_count * PAGE_SIZE;
                Ok(a)
            }
        }
    }

    fn deallocate(&mut self, addr: usize, page_count: usize) -> Result<(), RrubError> {
        self.releases.push((addr, page_count));
        Ok(())
    }

    fn get_mem_attrs(&self, _addr: usize, _page_count: usize) -> Result<MemAttr, RrubError> {
        Ok(MemAttr::all())
    }

    fn update_mem_attrs(
        &mut self,
        _addr: usize,
        _page_count: usize,
        _set: MemAttr,
        _clear: MemAttr,
    ) -> Result<(), RrubError> {
        self.attr_updates += 1;
        Ok(())
    }

    fn final_memory_map(&mut self) -> Result<Vec<(u64, u64, u32)>, RrubError> {
        Ok(Vec::new())
    }
}

#[test]
fn aligned_address_is_placed_exactly() {
    for a in [0usize, 0x1000, 0xA000_0000, 0xB000_0000, 0x7fff_f000] {
        for n in [1usize, 100, 4096, 4097, 20000] {
            let mut alloc = PageAllocator::new(MockBackend::new());
            let region = MemoryRegion::new(&mut alloc, Some(a), n, MemAttr::all()).unwrap();
            assert_eq!(region.as_ptr(), a);
            assert_eq!(region.page_count(), (n + PAGE_SIZE - 1) / PAGE_SIZE);
            assert_eq!(region.length_of_data(), n);
            assert_eq!(region.length_of_pages(), region.page_count() * PAGE_SIZE);
            assert!(region.as_bytes().iter().all(|b| *b == 0));
        }
    }
}

#[test]
fn relocated_allocation_is_refused_and_released() {
    let mut backend = MockBackend::new();
    backend.relocate_to = Some(0x2000);
    let mut alloc = PageAllocator::new(backend);
    let r = MemoryRegion::new(&mut alloc, Some(0x1000), 10, MemAttr::all());
    assert_eq!(r.unwrap_err(), RrubError::PlacementConflict);
    assert_eq!(alloc.backend().releases, vec![(0x2000, 1)]);
}

#[test]
fn failed_specific_allocation_is_a_placement_conflict() {
    let mut backend = MockBackend::new();
    backend.fail_with = Some(RrubError::FirmwareError(9));
    let mut alloc = PageAllocator::new(backend);
    let r = MemoryRegion::new(&mut alloc, Some(0x1000), 10, MemAttr::all());
    assert_eq!(r.unwrap_err(), RrubError::PlacementConflict);
    assert!(alloc.backend().releases.is_empty());
    let r = MemoryRegion::new(&mut alloc, None, 10, MemAttr::all());
    assert_eq!(r.unwrap_err(), RrubError::FirmwareError(9));
}

#[test]
fn misaligned_address_is_refused_before_the_backend() {
    for a in [1usize, 0x7ff, 0x800, 0xfff, 0x1001, 0xA000_0010, usize::MAX] {
        let mut alloc = PageAllocator::new(MockBackend::new());
        let r = MemoryRegion::new(&mut alloc, Some(a), 64, MemAttr::all());
        assert_eq!(r.unwrap_err(), RrubError::UnalignedMemoryAddress);
        assert!(alloc.backend().allocations.is_empty());
    }
}

#[test]
fn oversized_region_is_refused_before_the_backend() {
    let mut alloc = PageAllocator::new(MockBackend::new());
    let r = MemoryRegion::new(&mut alloc, None, usize::MAX, MemAttr::all());
    assert_eq!(r.unwrap_err(), RrubError::Overflow);
    assert!(alloc.backend().allocations.is_empty());
}

#[test]
fn any_address_allocation_gets_pages() {
    let mut alloc = PageAllocator::new(MockBackend::new());
    let region = MemoryRegion::new(&mut alloc, None, 5000, MemAttr::empty()).unwrap();
    assert_eq!(region.as_ptr(), 0x10_0000);
    assert_eq!(region.page_count(), 2);
    assert_eq!(alloc.backend().allocations, vec![(None, 2)]);
}

#[test]
fn placement_decisions() {
    assert_eq!(check_placement(Some(0x1000), Ok(0x1000)), Ok(0x1000));
    assert_eq!(check_placement(Some(0x1000), Ok(0x3000)), Err(RrubError::PlacementConflict));
    assert_eq!(check_placement(None, Ok(0x3000)), Ok(0x3000));
    assert_eq!(check_placement(None, Ok(0x3001)), Err(RrubError::UnalignedMemoryAddress));
    assert_eq!(check_placement(Some(0x1000), Err(RrubError::MemoryFault)), Err(RrubError::PlacementConflict));
    assert_eq!(check_placement(None, Err(RrubError::MemoryFault)), Err(RrubError::MemoryFault));
}

#[test]
fn write_then_read_round_trips() {
    let size = 3000usize;
    let mut alloc = PageAllocator::new(MockBackend::new());
    let mut region = MemoryRegion::new(&mut alloc, Some(0x4000), size, MemAttr::all()).unwrap();
    for (offset, len) in [(0usize, 0usize), (0, 1), (0, size), (17, 100), (size - 1, 1), (size, 0), (1234, 1766)] {
        let bytes: Vec<u8> = (0..len).map(|i| (i * 7 + offset) as u8).collect();
        region.write(&bytes, offset).unwrap();
        assert_eq!(region.read(offset, len).unwrap(), bytes);
    }
}

#[test]
fn out_of_bounds_access_is_refused() {
    let size = 100usize;
    let mut alloc = PageAllocator::new(MockBackend::new());
    let mut region = MemoryRegion::new(&mut alloc, Some(0x4000), size, MemAttr::all()).unwrap();
    region.write(&[1, 2, 3], 10).unwrap();
    let before = region.as_bytes().to_vec();
    for (offset, len) in [(0usize, 101usize), (100, 1), (99, 2), (usize::MAX, 1), (1, usize::MAX)] {
        assert_eq!(region.read(offset, len), Err(RrubError::Bounds));
        if len < 1000 {
            let bytes = vec![0xAAu8; len];
            assert_eq!(region.write(&bytes, offset), Err(RrubError::Bounds));
        }
    }
    assert_eq!(region.as_bytes(), &before[..]);
}

#[test]
fn zero_clears_the_data() {
    let mut alloc = PageAllocator::new(MockBackend::new());
    let mut region = MemoryRegion::new(&mut alloc, None, 16, MemAttr::all()).unwrap();
    region.write(&[9; 16], 0).unwrap();
    region.zero();
    assert_eq!(region.read(0, 16).unwrap(), vec![0u8; 16]);
}

#[test]
fn deallocate_returns_the_pages() {
    let mut alloc = PageAllocator::new(MockBackend::new());
    let region = MemoryRegion::new(&mut alloc, Some(0x8000), 8193, MemAttr::all()).unwrap();
    region.deallocate(&mut alloc).unwrap();
    assert_eq!(alloc.backend().releases, vec![(0x8000, 3)]);
}

#[test]
fn attribute_update_records_new_rights() {
    let mut alloc = PageAllocator::new(MockBackend::new());
    let mut region = MemoryRegion::new(&mut alloc, None, 10, MemAttr::from_bits_truncate(MemAttr::READ)).unwrap();
    region
        .update_mem_attrs(&mut alloc, MemAttr::from_bits_truncate(MemAttr::EXECUTE | MemAttr::WRITE), MemAttr::from_bits_truncate(MemAttr::WRITE))
        .unwrap();
    assert_eq!(region.mem_attrs().bits(), MemAttr::READ | MemAttr::EXECUTE);
    assert_eq!(alloc.backend().attr_updates, 1);
    assert_eq!(region.get_mem_attrs(&mut alloc).unwrap().bits(), 7);
}

#[test]
fn mem_attr_operations() {
    let mut a = MemAttr::all();
    assert!(a.contains(MemAttr::READ));
    a.remove(MemAttr::WRITE);
    assert_eq!(a.bits(), 5);
    assert!(!a.contains(MemAttr::WRITE));
    a.insert(MemAttr::WRITE | 0x80);
    assert_eq!(a.bits(), 7);
    assert_eq!(MemAttr::from_bits_truncate(0xff).bits(), 7);
    assert_eq!(MemAttr::empty().bits(), 0);
    assert_eq!(MemAttr::from_protection(false, false, false).bits(), 7);
    assert_eq!(MemAttr::from_protection(true, false, false).bits(), 3);
    assert_eq!(MemAttr::from_protection(false, true, false).bits(), 5);
    assert_eq!(MemAttr::from_protection(false, false, true).bits(), 6);
    assert_eq!(MemAttr::from_protection(true, true, true).bits(), 0);
    assert_eq!(MemAttr::from_bits_truncate(MemAttr::READ | MemAttr::EXECUTE).protections(), (true, false, true));
    assert_eq!(MemAttr::empty().protections(), (false, false, false));
    assert_eq!(MemAttr::all().protections(), (true, true, true));
}
