//! The sequence that stages a kernel for the firmware-native handover:
//! allocate, copy the image, build the boot-parameter block, translate the
//! final memory map and compute the entry point.
use vstd::prelude::*;

use crate::bytes::{le32, splice, zeros};
use crate::error::RrubError;
use crate::firmware::memory::{
    is_map_of, memory_map_from_descriptors, region_of, MemoryMap, MemoryRegion as MapRegion,
};
use crate::loaders::linux::x86::{
    with_e820_table, SetupHeader, Zeropage, E820_MAX_ENTRIES_ZEROPAGE, HDR_HANDOVER_OFFSET,
    HDR_KERNEL_ALIGNMENT, HDR_RELOCATABLE_KERNEL, SETUP_HEADER_OFFSET, SETUP_HEADER_SIZE,
    ZEROPAGE_SIZE,
};
use crate::mem::{
    allocation_answer, is_allocation, is_release, map_answer, pages_for, placement,
    region_request_calls, region_request_ok, BackendCall, MemAttr, MemoryBackend, MemoryRegion,
    PageAllocator, PAGE_SIZE,
};

verus! {

/// Physical address the kernel image is loaded at.
pub const KERNEL_LOAD_ADDR: usize = 0xa000_0000;

/// Physical address of the boot-parameter block.
pub const ZEROPAGE_ADDR: usize = 0xb000_0000;

/// Distance of the 64-bit handover entry past the 32-bit one.
pub const HANDOVER_ENTRY_64_OFFSET: u64 = 512;

/// The 64-bit handover entry of a kernel loaded at `base` whose setup header
/// gives `handover_offset`, if it is an address.
pub open spec fn handover_address(base: int, handover_offset: int) -> Option<u64> {
    if base + handover_offset + HANDOVER_ENTRY_64_OFFSET <= u64::MAX {
        Some((base + handover_offset + HANDOVER_ENTRY_64_OFFSET) as u64)
    } else {
        None
    }
}

pub fn handover_target(base: u64, handover_offset: u32) -> (r: Option<u64>)
    ensures
        r == handover_address(base as int, handover_offset as int),
{
    if base > u64::MAX - HANDOVER_ENTRY_64_OFFSET - handover_offset as u64 {
        None
    } else {
        Some(base + handover_offset as u64 + HANDOVER_ENTRY_64_OFFSET)
    }
}

/// The setup header's bytes of a kernel image.
pub open spec fn image_setup_header(kernel: Seq<u8>) -> Seq<u8> {
    kernel.subrange(SETUP_HEADER_OFFSET as int, SETUP_HEADER_OFFSET + SETUP_HEADER_SIZE)
}

/// The boot-parameter block for a kernel image and a memory map: zero but
/// for the image's setup header and the translated map.
pub open spec fn zeropage_for(kernel: Seq<u8>, map: Seq<MapRegion>) -> Seq<u8> {
    with_e820_table(
        splice(zeros(ZEROPAGE_SIZE as nat), SETUP_HEADER_OFFSET as int, image_setup_header(kernel)),
        map,
    )
}

/// Builds the boot-parameter block for `kernel` and the final memory map.
pub fn build_zeropage(kernel: &[u8], map: &[MapRegion]) -> (r: Result<Zeropage, RrubError>)
    ensures
        kernel@.len() < SETUP_HEADER_OFFSET + SETUP_HEADER_SIZE ==> r == Err::<Zeropage, RrubError>(
            RrubError::MalformedImage,
        ),
        kernel@.len() >= SETUP_HEADER_OFFSET + SETUP_HEADER_SIZE && map@.len()
            > E820_MAX_ENTRIES_ZEROPAGE ==> r == Err::<Zeropage, RrubError>(
            RrubError::MemoryMapOverflow,
        ),
        kernel@.len() >= SETUP_HEADER_OFFSET + SETUP_HEADER_SIZE && map@.len()
            <= E820_MAX_ENTRIES_ZEROPAGE ==> r is Ok && r->Ok_0.wf() && r->Ok_0@ == zeropage_for(
            kernel@,
            map@,
        ),
{
    let hdr = SetupHeader::from_image(kernel)?;
    let mut zp = Zeropage::empty();
    zp.set_hdr(&hdr);
    zp.set_e820_table(map)?;
    Ok(zp)
}

/// Translating the memory map leaves the setup header of the block as the
/// image had it.
pub proof fn lemma_zeropage_keeps_setup_header(kernel: Seq<u8>, map: Seq<MapRegion>)
    requires
        kernel.len() >= SETUP_HEADER_OFFSET + SETUP_HEADER_SIZE,
        map.len() <= E820_MAX_ENTRIES_ZEROPAGE,
    ensures
        zeropage_for(kernel, map).len() == ZEROPAGE_SIZE,
        zeropage_for(kernel, map).subrange(
            SETUP_HEADER_OFFSET as int,
            SETUP_HEADER_OFFSET + SETUP_HEADER_SIZE,
        ) == image_setup_header(kernel),
{
    crate::loaders::linux::x86::lemma_e820_table_len(map);
    let base = splice(
        zeros(ZEROPAGE_SIZE as nat),
        SETUP_HEADER_OFFSET as int,
        image_setup_header(kernel),
    );
    assert(base.subrange(SETUP_HEADER_OFFSET as int, SETUP_HEADER_OFFSET + SETUP_HEADER_SIZE)
        =~= image_setup_header(kernel));
    assert(zeropage_for(kernel, map).subrange(
        SETUP_HEADER_OFFSET as int,
        SETUP_HEADER_OFFSET + SETUP_HEADER_SIZE,
    ) =~= image_setup_header(kernel));
}

/// Whether the fixed load address suits the kernel: a relocatable kernel
/// that states an alignment must be loaded at a multiple of it.
pub open spec fn load_address_allowed(kernel: Seq<u8>) -> bool {
    let align = le32(kernel, SETUP_HEADER_OFFSET + HDR_KERNEL_ALIGNMENT);
    kernel[SETUP_HEADER_OFFSET + HDR_RELOCATABLE_KERNEL] == 0 || align == 0 || (
    KERNEL_LOAD_ADDR as int) % align == 0
}

/// Every descriptor of `d` has a map entry.
pub open spec fn all_regions(d: Seq<(u64, u64, u32)>) -> bool {
    forall|i: int| 0 <= i < d.len() ==> (#[trigger] region_of(d[i])) is Some
}

/// What taking the final memory map comes to, given the firmware's answer.
pub open spec fn map_outcome(answer: Result<Seq<(u64, u64, u32)>, RrubError>, r: Result<
    MemoryMap,
    RrubError,
>) -> bool {
    match answer {
        Err(e) => r == Err::<MemoryMap, RrubError>(e),
        Ok(d) => if all_regions(d) {
            r is Ok && is_map_of(r->Ok_0@, d)
        } else {
            r == Err::<MemoryMap, RrubError>(RrubError::Overflow)
        },
    }
}

/// The firmware's answer recorded by a final-map call.
pub open spec fn final_map_answer(c: BackendCall) -> Result<Seq<(u64, u64, u32)>, RrubError> {
    match c {
        BackendCall::FinalMap { answer } => answer,
        _ => Err(RrubError::MemoryFault),
    }
}

/// Whether a boot attempt gets as far as asking the allocator for pages.
pub open spec fn boot_requested(exited: bool, kernel: Seq<u8>) -> bool {
    &&& !exited
    &&& kernel.len() >= SETUP_HEADER_OFFSET + SETUP_HEADER_SIZE
    &&& load_address_allowed(kernel)
    &&& kernel.len() <= usize::MAX - (PAGE_SIZE - 1)
}

/// The state the boot sequence carries: the page allocator and whether the
/// firmware's memory services have been relinquished. After that point no
/// allocator call is made again.
pub struct BootContext<B: MemoryBackend> {
    alloc: PageAllocator<B>,
    services_exited: bool,
}

/// A kernel staged for handover: its image in place, the boot-parameter
/// block built, and the entry point to call.
pub struct PreparedBoot {
    pub kernel: MemoryRegion,
    pub zeropage: MemoryRegion,
    pub target: u64,
}

impl<B: MemoryBackend> BootContext<B> {
    pub closed spec fn exited(&self) -> bool {
        self.services_exited
    }

    /// The calls made to the allocator so far.
    pub closed spec fn calls(&self) -> Seq<BackendCall> {
        self.alloc.calls()
    }

    pub closed spec fn spec_backend(&self) -> B {
        self.alloc.spec_backend()
    }

    pub fn new(backend: B) -> (r: BootContext<B>)
        ensures
            !r.exited(),
            r.calls() == Seq::<BackendCall>::empty(),
            r.spec_backend() == backend,
    {
        BootContext { alloc: PageAllocator::new(backend), services_exited: false }
    }

    pub fn services_exited(&self) -> (r: bool)
        ensures
            r == self.exited(),
    {
        self.services_exited
    }

    pub fn backend(&self) -> (r: &B)
        ensures
            *r == self.spec_backend(),
    {
        self.alloc.backend()
    }

    /// Allocates a region as [`MemoryRegion::new`] does, unless the memory
    /// services are gone.
    pub fn allocate_region(&mut self, addr: Option<usize>, data_len: usize, attrs: MemAttr) -> (r:
        Result<MemoryRegion, RrubError>)
        ensures
            final(self).exited() == old(self).exited(),
            old(self).exited() ==> r == Err::<MemoryRegion, RrubError>(RrubError::ServicesExited)
                && *final(self) == *old(self),
            !old(self).exited() && addr is Some && addr->0 % PAGE_SIZE != 0 ==> r == Err::<
                MemoryRegion,
                RrubError,
            >(RrubError::UnalignedMemoryAddress) && final(self).calls() == old(self).calls(),
            !old(self).exited() && !(addr is Some && addr->0 % PAGE_SIZE != 0) && data_len
                > usize::MAX - (PAGE_SIZE - 1) ==> r == Err::<MemoryRegion, RrubError>(
                RrubError::Overflow,
            ) && final(self).calls() == old(self).calls(),
            !old(self).exited() && region_request_ok(addr, data_len) ==> {
                let answer = allocation_answer(final(self).calls()[old(self).calls().len() as int]);
                &&& region_request_calls(old(self).calls(), final(self).calls(), addr, pages_for(data_len as int))
                &&& placement(addr, answer) matches Err(e) ==> r == Err::<MemoryRegion, RrubError>(e)
                &&& placement(addr, answer) matches Ok(base) ==> r is Ok && r->Ok_0.base() == base
            },
            r is Ok ==> {
                let reg = r->Ok_0;
                &&& reg.wf()
                &&& reg.contents() == zeros(data_len as nat)
                &&& reg.pages() == pages_for(data_len as int)
                &&& reg.base() % PAGE_SIZE as int == 0
                &&& addr is Some ==> reg.base() == addr->0
                &&& reg.attrs() == attrs
            },
    {
        if self.services_exited {
            return Err(RrubError::ServicesExited);
        }
        let r = MemoryRegion::new(&mut self.alloc, addr, data_len, attrs);
        proof {
            if r is Ok {
                assert(r->Ok_0.contents() =~= zeros(data_len as nat));
            }
        }
        r
    }

    /// Gives a region's pages back, unless the memory services are gone.
    pub fn release_region(&mut self, region: MemoryRegion) -> (r: Result<(), RrubError>)
        ensures
            final(self).exited() == old(self).exited(),
            old(self).exited() ==> r == Err::<(), RrubError>(RrubError::ServicesExited)
                && *final(self) == *old(self),
            !old(self).exited() ==> final(self).calls() == old(self).calls().push(
                BackendCall::Deallocate {
                    addr: region.base() as usize,
                    pages: region.pages() as usize,
                    answer: r,
                },
            ),
    {
        if self.services_exited {
            return Err(RrubError::ServicesExited);
        }
        region.deallocate(&mut self.alloc)
    }

    /// Takes the firmware's final memory map. This relinquishes the memory
    /// services, whatever the firmware answers: it is done at most once.
    pub fn finalize_memory_map(&mut self) -> (r: Result<MemoryMap, RrubError>)
        ensures
            final(self).exited(),
            old(self).exited() ==> r == Err::<MemoryMap, RrubError>(RrubError::ServicesExited)
                && *final(self) == *old(self),
            !old(self).exited() ==> final(self).calls().len() == old(self).calls().len() + 1
                && final(self).calls().subrange(0, old(self).calls().len() as int) == old(self).calls()
                && final(self).calls().last() is FinalMap
                && map_outcome(final_map_answer(final(self).calls().last()), r),
    {
        if self.services_exited {
            return Err(RrubError::ServicesExited);
        }
        let ghost before = self.alloc.calls();
        let descs = self.alloc.final_memory_map();
        self.services_exited = true;
        assert(self.alloc.calls().subrange(0, before.len() as int) =~= before);
        match descs {
            Ok(d) => memory_map_from_descriptors(&d),
            Err(e) => Err(e),
        }
    }

    /// Stages `kernel` for the firmware-native handover: the image at
    /// [`KERNEL_LOAD_ADDR`], the boot-parameter block at [`ZEROPAGE_ADDR`]
    /// with the image's setup header and the final memory map, and the
    /// 64-bit handover entry as target. The allocator is asked, in order,
    /// for the kernel's pages, for one page for the block, and for the final
    /// memory map. The first failure ends the attempt; regions allocated
    /// before the memory map was taken are given back.
    pub fn boot_linux(&mut self, kernel: &[u8]) -> (r: Result<PreparedBoot, RrubError>)
        ensures
            old(self).exited() ==> r == Err::<PreparedBoot, RrubError>(RrubError::ServicesExited)
                && *final(self) == *old(self),
            !old(self).exited() && kernel@.len() < SETUP_HEADER_OFFSET + SETUP_HEADER_SIZE ==> r
                == Err::<PreparedBoot, RrubError>(RrubError::MalformedImage) && *final(self)
                == *old(self),
            !old(self).exited() && kernel@.len() >= SETUP_HEADER_OFFSET + SETUP_HEADER_SIZE
                && !load_address_allowed(kernel@) ==> r == Err::<PreparedBoot, RrubError>(
                RrubError::PlacementConflict,
            ) && *final(self) == *old(self),
            !old(self).exited() && kernel@.len() >= SETUP_HEADER_OFFSET + SETUP_HEADER_SIZE
                && load_address_allowed(kernel@) && kernel@.len() > usize::MAX - (PAGE_SIZE - 1)
                ==> r == Err::<PreparedBoot, RrubError>(RrubError::Overflow) && *final(self)
                == *old(self),
            boot_requested(old(self).exited(), kernel@) ==> {
                let before = old(self).calls();
                let calls = final(self).calls();
                let n = before.len() as int;
                let pages = pages_for(kernel@.len() as int);
                let kernel_answer = allocation_answer(calls[n]);
                &&& calls.len() > n
                &&& calls.subrange(0, n) == before
                &&& is_allocation(calls[n], Some(KERNEL_LOAD_ADDR), pages)
                &&& placement(Some(KERNEL_LOAD_ADDR), kernel_answer) matches Err(e) ==> {
                    &&& r == Err::<PreparedBoot, RrubError>(e)
                    &&& !final(self).exited()
                    &&& region_request_calls(before, calls, Some(KERNEL_LOAD_ADDR), pages)
                }
                &&& placement(Some(KERNEL_LOAD_ADDR), kernel_answer) is Ok ==> {
                    let block_answer = allocation_answer(calls[n + 1]);
                    &&& calls.len() > n + 1
                    &&& is_allocation(calls[n + 1], Some(ZEROPAGE_ADDR), 1)
                    &&& placement(Some(ZEROPAGE_ADDR), block_answer) matches Err(e) ==> {
                        &&& r == Err::<PreparedBoot, RrubError>(e)
                        &&& !final(self).exited()
                        &&& region_request_calls(
                            calls.subrange(0, n + 1),
                            calls.drop_last(),
                            Some(ZEROPAGE_ADDR),
                            1,
                        )
                        &&& is_release(calls.last(), KERNEL_LOAD_ADDR as int, pages)
                    }
                    &&& placement(Some(ZEROPAGE_ADDR), block_answer) is Ok ==> {
                        let answer = final_map_answer(calls[n + 2]);
                        &&& calls.len() == n + 3
                        &&& calls[n + 2] is FinalMap
                        &&& final(self).exited()
                        &&& answer matches Err(e) ==> r == Err::<PreparedBoot, RrubError>(e)
                        &&& answer matches Ok(d) ==> {
                            &&& !all_regions(d) ==> r == Err::<PreparedBoot, RrubError>(
                                RrubError::Overflow,
                            )
                            &&& all_regions(d) && d.len() > E820_MAX_ENTRIES_ZEROPAGE ==> r
                                == Err::<PreparedBoot, RrubError>(RrubError::MemoryMapOverflow)
                            &&& all_regions(d) && d.len() <= E820_MAX_ENTRIES_ZEROPAGE ==> r is Ok
                                && exists|map: Seq<MapRegion>|
                                is_map_of(map, d) && #[trigger] zeropage_for(kernel@, map)
                                    == r->Ok_0.zeropage.contents()
                        }
                    }
                }
            },
            r matches Ok(p) ==> {
                &&& boot_requested(old(self).exited(), kernel@)
                &&& final(self).exited()
                &&& p.kernel.base() == KERNEL_LOAD_ADDR
                &&& p.kernel.contents() == kernel@
                &&& p.zeropage.base() == ZEROPAGE_ADDR
                &&& p.zeropage.contents().subrange(
                    SETUP_HEADER_OFFSET as int,
                    SETUP_HEADER_OFFSET + SETUP_HEADER_SIZE,
                ) == image_setup_header(kernel@)
                &&& Some(p.target) == handover_address(
                    KERNEL_LOAD_ADDR as int,
                    le32(kernel@, SETUP_HEADER_OFFSET + HDR_HANDOVER_OFFSET),
                )
            },
    {
        if self.services_exited {
            return Err(RrubError::ServicesExited);
        }
        let hdr = SetupHeader::from_image(kernel)?;
        let align = hdr.kernel_alignment();
        if hdr.relocatable_kernel() != 0 && align != 0 && KERNEL_LOAD_ADDR as u32 % align != 0 {
            return Err(RrubError::PlacementConflict);
        }
        if kernel.len() > usize::MAX - (PAGE_SIZE - 1) {
            return Err(RrubError::Overflow);
        }
        let ghost c0 = self.alloc.calls();
        let mut kernel_region = self.allocate_region(
            Some(KERNEL_LOAD_ADDR),
            kernel.len(),
            MemAttr::all(),
        )?;
        let ghost c1 = self.alloc.calls();
        let mut zeropage_region = match self.allocate_region(
            Some(ZEROPAGE_ADDR),
            ZEROPAGE_SIZE,
            MemAttr::from_bits_truncate(MemAttr::READ | MemAttr::WRITE),
        ) {
            Ok(z) => z,
            Err(e) => {
                let ghost c2 = self.alloc.calls();
                let _ = self.release_region(kernel_region);
                proof {
                    let c3 = self.alloc.calls();
                    assert(c3.drop_last() =~= c2);
                    assert(c3.subrange(0, c0.len() as int) =~= c0);
                    assert(c2.subrange(0, c0.len() as int) =~= c0);
                    assert(c3.subrange(0, c0.len() as int + 1) =~= c1);
                    assert(c3[c0.len() as int] == c1[c0.len() as int]);
                    assert(c3[c0.len() as int + 1] == c2[c0.len() as int + 1]);
                }
                return Err(e);
            },
        };
        let _ = kernel_region.write(kernel, 0);
        assert(kernel_region.contents() =~= kernel@);
        let handover_offset = hdr.handover_offset();
        let target = KERNEL_LOAD_ADDR as u64 + handover_offset as u64 + HANDOVER_ENTRY_64_OFFSET;
        let ghost c2 = self.alloc.calls();
        let map = self.finalize_memory_map();
        proof {
            let c3 = self.alloc.calls();
            assert(c3.subrange(0, c0.len() as int) =~= c0);
            assert(c3[c0.len() as int] == c1[c0.len() as int]);
            assert(c3[c0.len() as int + 1] == c2[c0.len() as int + 1]);
        }
        let map = map?;
        let zp = build_zeropage(kernel, map.as_slice())?;
        proof {
            lemma_zeropage_keeps_setup_header(kernel@, map@);
        }
        let _ = zeropage_region.write(zp.as_bytes(), 0);
        assert(zeropage_region.contents() =~= zp@);
        Ok(PreparedBoot { kernel: kernel_region, zeropage: zeropage_region, target })
    }
}

} // verus!
