//! Page-granular physical memory: the allocator capability and the owning
//! handle over one allocation.
pub mod e820;
pub mod elf;
pub mod jump;

use vstd::prelude::*;

use crate::bytes::{copy_into, copy_range, splice};
use crate::error::RrubError;

verus! {

/// Size of one page of physical memory, in bytes.
pub const PAGE_SIZE: usize = 4096;

/// Number of whole pages that hold `len` bytes.
pub open spec fn pages_for(len: int) -> int {
    if len % PAGE_SIZE as int == 0 {
        len / PAGE_SIZE as int
    } else {
        len / PAGE_SIZE as int + 1
    }
}

/// Access rights of a range of memory: a mask of execute, write and read.
#[derive(Debug, Clone, Copy, PartialEq, Eq, Structural)]
pub struct MemAttr {
    bits: u8,
}

impl MemAttr {
    pub const EXECUTE: u8 = 1;

    pub const WRITE: u8 = 2;

    pub const READ: u8 = 4;

    pub closed spec fn spec_bits(self) -> u8 {
        self.bits
    }

    pub fn empty() -> (r: MemAttr)
        ensures
            r.spec_bits() == 0,
    {
        MemAttr { bits: 0 }
    }

    pub fn all() -> (r: MemAttr)
        ensures
            r.spec_bits() == 7,
    {
        MemAttr { bits: 7 }
    }

    /// Keeps the known bits of `bits` and drops the others.
    pub fn from_bits_truncate(bits: u8) -> (r: MemAttr)
        ensures
            r.spec_bits() == bits & 7,
    {
        MemAttr { bits: bits & 7 }
    }

    pub fn bits(&self) -> (r: u8)
        ensures
            r == self.spec_bits(),
    {
        self.bits
    }

    pub fn contains(&self, flag: u8) -> (r: bool)
        ensures
            r == (self.spec_bits() & flag == flag),
    {
        self.bits & flag == flag
    }

    pub fn insert(&mut self, flag: u8)
        ensures
            final(self).spec_bits() == (old(self).spec_bits() | flag) & 7,
    {
        self.bits = (self.bits | flag) & 7;
    }

    pub fn remove(&mut self, flag: u8)
        ensures
            final(self).spec_bits() == old(self).spec_bits() & !flag,
    {
        self.bits = self.bits & !flag;
    }

    /// The rights left by firmware protection flags: read protection takes
    /// away reading, read-only takes away writing, execute protection takes
    /// away executing.
    pub fn from_protection(read_protect: bool, read_only: bool, execute_protect: bool) -> (r:
        MemAttr)
        ensures
            r.spec_bits() == (if read_protect { 0u8 } else { 4u8 }) + (if read_only {
                0u8
            } else {
                2u8
            }) + (if execute_protect { 0u8 } else { 1u8 }),
    {
        let mut bits: u8 = 0;
        if !read_protect {
            bits = bits + Self::READ;
        }
        if !read_only {
            bits = bits + Self::WRITE;
        }
        if !execute_protect {
            bits = bits + Self::EXECUTE;
        }
        MemAttr { bits }
    }

    /// The firmware protection flags that take away the rights of `self`:
    /// read protection, read-only and execute protection, in that order.
    /// It is the inverse of [`MemAttr::from_protection`] on the rights left.
    pub fn protections(&self) -> (r: (bool, bool, bool))
        ensures
            r == (self.spec_bits() & 4 != 0, self.spec_bits() & 2 != 0, self.spec_bits() & 1 != 0),
    {
        (self.bits & Self::READ != 0, self.bits & Self::WRITE != 0, self.bits & Self::EXECUTE != 0)
    }
}

/// The page allocator of the pre-boot environment. Implementations are the
/// firmware's boot services or a legacy allocator; nothing here assumes what
/// they return; every result is checked by its caller.
pub trait MemoryBackend {
    /// Reserves `page_count` pages at `addr`, or anywhere when `addr` is
    /// `None`, and returns the base address.
    fn allocate(&mut self, addr: Option<usize>, page_count: usize) -> Result<usize, RrubError>;

    /// Returns `page_count` pages at `addr` to the free pool.
    fn deallocate(&mut self, addr: usize, page_count: usize) -> Result<(), RrubError>;

    /// The access rights of `page_count` pages at `addr`.
    fn get_mem_attrs(&self, addr: usize, page_count: usize) -> Result<MemAttr, RrubError>;

    /// Sets the rights in `set` and clears those in `clear`.
    fn update_mem_attrs(
        &mut self,
        addr: usize,
        page_count: usize,
        set: MemAttr,
        clear: MemAttr,
    ) -> Result<(), RrubError>;

    /// The final memory map as (physical start, page count, firmware type)
    /// triples. Obtaining it relinquishes the firmware's memory services.
    fn final_memory_map(&mut self) -> Result<Vec<(u64, u64, u32)>, RrubError>;
}

/// One call made to a page allocator, with the answer it gave.
pub enum BackendCall {
    Allocate { addr: Option<usize>, pages: usize, answer: Result<usize, RrubError> },
    Deallocate { addr: usize, pages: usize, answer: Result<(), RrubError> },
    GetAttrs { addr: usize, pages: usize, answer: Result<MemAttr, RrubError> },
    UpdateAttrs {
        addr: usize,
        pages: usize,
        set: MemAttr,
        clear: MemAttr,
        answer: Result<(), RrubError>,
    },
    FinalMap { answer: Result<Seq<(u64, u64, u32)>, RrubError> },
}

/// A page allocator together with the record of every call made to it, so
/// that contracts can say what was asked of it and what it answered.
pub struct PageAllocator<B: MemoryBackend> {
    backend: B,
    calls: Ghost<Seq<BackendCall>>,
}

impl<B: MemoryBackend> PageAllocator<B> {
    /// The calls made so far, oldest first.
    pub closed spec fn calls(&self) -> Seq<BackendCall> {
        self.calls@
    }

    pub closed spec fn spec_backend(&self) -> B {
        self.backend
    }

    pub fn new(backend: B) -> (r: PageAllocator<B>)
        ensures
            r.calls() == Seq::<BackendCall>::empty(),
            r.spec_backend() == backend,
    {
        PageAllocator { backend, calls: Ghost(Seq::empty()) }
    }

    pub fn backend(&self) -> (r: &B)
        ensures
            *r == self.spec_backend(),
    {
        &self.backend
    }

    pub fn into_inner(self) -> (r: B)
        ensures
            r == self.spec_backend(),
    {
        self.backend
    }

    pub fn allocate(&mut self, addr: Option<usize>, pages: usize) -> (r: Result<usize, RrubError>)
        ensures
            final(self).calls() == old(self).calls().push(
                BackendCall::Allocate { addr, pages, answer: r },
            ),
    {
        let r = self.backend.allocate(addr, pages);
        self.calls = Ghost(self.calls@.push(BackendCall::Allocate { addr, pages, answer: r }));
        r
    }

    pub fn deallocate(&mut self, addr: usize, pages: usize) -> (r: Result<(), RrubError>)
        ensures
            final(self).calls() == old(self).calls().push(
                BackendCall::Deallocate { addr, pages, answer: r },
            ),
    {
        let r = self.backend.deallocate(addr, pages);
        self.calls = Ghost(self.calls@.push(BackendCall::Deallocate { addr, pages, answer: r }));
        r
    }

    pub fn get_mem_attrs(&mut self, addr: usize, pages: usize) -> (r: Result<MemAttr, RrubError>)
        ensures
            final(self).calls() == old(self).calls().push(
                BackendCall::GetAttrs { addr, pages, answer: r },
            ),
    {
        let r = self.backend.get_mem_attrs(addr, pages);
        self.calls = Ghost(self.calls@.push(BackendCall::GetAttrs { addr, pages, answer: r }));
        r
    }

    pub fn update_mem_attrs(&mut self, addr: usize, pages: usize, set: MemAttr, clear: MemAttr) -> (r:
        Result<(), RrubError>)
        ensures
            final(self).calls() == old(self).calls().push(
                BackendCall::UpdateAttrs { addr, pages, set, clear, answer: r },
            ),
    {
        let r = self.backend.update_mem_attrs(addr, pages, set, clear);
        self.calls = Ghost(
            self.calls@.push(BackendCall::UpdateAttrs { addr, pages, set, clear, answer: r }),
        );
        r
    }

    pub fn final_memory_map(&mut self) -> (r: Result<Vec<(u64, u64, u32)>, RrubError>)
        ensures
            final(self).calls() == old(self).calls().push(
                BackendCall::FinalMap { answer: map_answer(r) },
            ),
    {
        let r = self.backend.final_memory_map();
        self.calls = Ghost(self.calls@.push(BackendCall::FinalMap { answer: map_answer(r) }));
        r
    }
}

/// The view of a final memory map answer.
pub open spec fn map_answer(r: Result<Vec<(u64, u64, u32)>, RrubError>) -> Result<
    Seq<(u64, u64, u32)>,
    RrubError,
> {
    match r {
        Ok(v) => Ok(v@),
        Err(e) => Err(e),
    }
}

/// Whether `c` asks for `pages` pages at `addr`.
pub open spec fn is_allocation(c: BackendCall, addr: Option<usize>, pages: int) -> bool {
    c matches BackendCall::Allocate { addr: a, pages: p, .. } && a == addr && p == pages
}

/// The allocator's answer to an allocation call.
pub open spec fn allocation_answer(c: BackendCall) -> Result<usize, RrubError> {
    match c {
        BackendCall::Allocate { answer, .. } => answer,
        _ => Err(RrubError::MemoryFault),
    }
}

/// Whether `c` gives back `pages` pages at `addr`.
pub open spec fn is_release(c: BackendCall, addr: int, pages: int) -> bool {
    c matches BackendCall::Deallocate { addr: a, pages: p, .. } && a == addr && p == pages
}

/// Whether a region request for `data_len` bytes at `addr` reaches the
/// allocator: the address is page-aligned and the pages fit in `usize`.
pub open spec fn region_request_ok(addr: Option<usize>, data_len: usize) -> bool {
    !(addr is Some && addr->0 % PAGE_SIZE != 0) && data_len <= usize::MAX - (PAGE_SIZE - 1)
}

/// The calls a region request for `pages` pages at `addr` leaves after
/// `before`: the allocation and, when the allocator placed the pages
/// elsewhere, their release.
pub open spec fn region_request_calls(
    before: Seq<BackendCall>,
    after: Seq<BackendCall>,
    addr: Option<usize>,
    pages: int,
) -> bool {
    let n = before.len() as int;
    &&& after.len() > n
    &&& after.subrange(0, n) == before
    &&& is_allocation(after[n], addr, pages)
    &&& {
        let answer = allocation_answer(after[n]);
        if answer is Ok && placement(addr, answer) is Err {
            after.len() == n + 2 && is_release(after[n + 1], answer->Ok_0 as int, pages)
        } else {
            after.len() == n + 1
        }
    }
}

/// Number of pages for `len` bytes.
pub fn page_count_for(len: usize) -> (r: usize)
    requires
        len <= usize::MAX - (PAGE_SIZE - 1),
    ensures
        r == pages_for(len as int),
        r * PAGE_SIZE <= usize::MAX,
{
    if len % PAGE_SIZE == 0 {
        len / PAGE_SIZE
    } else {
        len / PAGE_SIZE + 1
    }
}

/// What a page request comes to, given the address asked for and what the
/// allocator answered: a specific address is honored exactly or not at all.
pub open spec fn placement(addr: Option<usize>, allocated: Result<usize, RrubError>) -> Result<
    usize,
    RrubError,
> {
    match allocated {
        Err(e) => if addr is Some {
            Err(RrubError::PlacementConflict)
        } else {
            Err(e)
        },
        Ok(base) => if addr is Some && base != addr->0 {
            Err(RrubError::PlacementConflict)
        } else if base % PAGE_SIZE != 0 {
            Err(RrubError::UnalignedMemoryAddress)
        } else {
            Ok(base)
        },
    }
}

/// A request for a specific address never yields another: whatever the
/// allocator answers, the outcome is that address or a failure.
pub proof fn lemma_placement_is_exact(a: usize, allocated: Result<usize, RrubError>)
    ensures
        placement(Some(a), allocated) is Ok ==> placement(Some(a), allocated)->Ok_0 == a,
        a % PAGE_SIZE != 0 ==> placement(Some(a), allocated) is Err,
{
}

/// Decides whether an allocator's answer can back a region requested at `addr`.
pub fn check_placement(addr: Option<usize>, allocated: Result<usize, RrubError>) -> (r: Result<
    usize,
    RrubError,
>)
    ensures
        r == placement(addr, allocated),
{
    match allocated {
        Err(e) => match addr {
            Some(_) => Err(RrubError::PlacementConflict),
            None => Err(e),
        },
        Ok(base) => {
            match addr {
                Some(a) => {
                    if base != a {
                        return Err(RrubError::PlacementConflict);
                    }
                },
                None => {},
            }
            if base % PAGE_SIZE != 0 {
                Err(RrubError::UnalignedMemoryAddress)
            } else {
                Ok(base)
            }
        },
    }
}

/// An owned, page-aligned allocation of physical memory holding `len` bytes
/// of data in whole pages. It holds the bytes staged for that memory.
#[derive(Debug)]
pub struct MemoryRegion {
    start: usize,
    page_count: usize,
    data: Vec<u8>,
    mem_attrs: MemAttr,
}

impl MemoryRegion {
    /// Base physical address.
    pub closed spec fn base(&self) -> int {
        self.start as int
    }

    pub closed spec fn pages(&self) -> int {
        self.page_count as int
    }

    /// The bytes of the region's data.
    pub closed spec fn contents(&self) -> Seq<u8> {
        self.data@
    }

    pub closed spec fn attrs(&self) -> MemAttr {
        self.mem_attrs
    }

    pub closed spec fn wf(&self) -> bool {
        &&& self.start % PAGE_SIZE == 0
        &&& self.page_count == pages_for(self.data@.len() as int)
        &&& self.page_count * PAGE_SIZE <= usize::MAX
    }

    /// Allocates the pages for `data_len` bytes at `addr` (anywhere when
    /// `None`) through `alloc`. A misaligned address is refused before the
    /// allocator is asked; an address other than the one requested is never
    /// accepted, and pages placed elsewhere are given back.
    pub fn new<B: MemoryBackend>(
        alloc: &mut PageAllocator<B>,
        addr: Option<usize>,
        data_len: usize,
        mem_attrs: MemAttr,
    ) -> (r: Result<MemoryRegion, RrubError>)
        ensures
            addr is Some && addr->0 % PAGE_SIZE != 0 ==> r == Err::<MemoryRegion, RrubError>(
                RrubError::UnalignedMemoryAddress,
            ) && final(alloc).calls() == old(alloc).calls(),
            !(addr is Some && addr->0 % PAGE_SIZE != 0) && data_len > usize::MAX - (PAGE_SIZE - 1)
                ==> r == Err::<MemoryRegion, RrubError>(RrubError::Overflow)
                && final(alloc).calls() == old(alloc).calls(),
            region_request_ok(addr, data_len) ==> {
                let answer = allocation_answer(final(alloc).calls()[old(alloc).calls().len() as int]);
                &&& region_request_calls(old(alloc).calls(), final(alloc).calls(), addr, pages_for(data_len as int))
                &&& placement(addr, answer) matches Err(e) ==> r == Err::<MemoryRegion, RrubError>(e)
                &&& placement(addr, answer) matches Ok(base) ==> r is Ok && r->Ok_0.base() == base
            },
            r is Ok ==> {
                let reg = r->Ok_0;
                &&& reg.wf()
                &&& reg.contents() == Seq::new(data_len as nat, |i: int| 0u8)
                &&& reg.pages() == pages_for(data_len as int)
                &&& reg.base() % PAGE_SIZE as int == 0
                &&& addr is Some ==> reg.base() == addr->0
                &&& reg.attrs() == mem_attrs
            },
    {
        match addr {
            Some(a) => {
                if a % PAGE_SIZE != 0 {
                    return Err(RrubError::UnalignedMemoryAddress);
                }
            },
            None => {},
        }
        if data_len > usize::MAX - (PAGE_SIZE - 1) {
            return Err(RrubError::Overflow);
        }
        let page_count = page_count_for(data_len);
        let ghost before = alloc.calls();
        let allocated = alloc.allocate(addr, page_count);
        assert(alloc.calls()[before.len() as int] == BackendCall::Allocate {
            addr,
            pages: page_count,
            answer: allocated,
        });
        assert(alloc.calls().subrange(0, before.len() as int) =~= before);
        let start = match check_placement(addr, allocated) {
            Ok(s) => s,
            Err(e) => {
                if let Ok(base) = allocated {
                    // Pages were reserved at the wrong place: give them back.
                    let _ = alloc.deallocate(base, page_count);
                    assert(alloc.calls().subrange(0, before.len() as int) =~= before);
                }
                return Err(e);
            },
        };
        let data = vec![0u8; data_len];
        assert(data@ =~= Seq::new(data_len as nat, |i: int| 0u8));
        Ok(MemoryRegion { start, page_count, data, mem_attrs })
    }

    /// Returns the pages to the allocator. A failure here cannot be
    /// corrected; the caller may only report it.
    pub fn deallocate<B: MemoryBackend>(self, alloc: &mut PageAllocator<B>) -> (r: Result<
        (),
        RrubError,
    >)
        ensures
            final(alloc).calls() == old(alloc).calls().push(
                BackendCall::Deallocate {
                    addr: self.base() as usize,
                    pages: self.pages() as usize,
                    answer: r,
                },
            ),
    {
        alloc.deallocate(self.start, self.page_count)
    }

    /// Base physical address.
    pub fn as_ptr(&self) -> (r: usize)
        ensures
            r == self.base(),
    {
        self.start
    }

    pub fn page_count(&self) -> (r: usize)
        ensures
            r == self.pages(),
    {
        self.page_count
    }

    pub fn mem_attrs(&self) -> (r: MemAttr)
        ensures
            r == self.attrs(),
    {
        self.mem_attrs
    }

    /// Bytes spanned by the region's pages.
    pub fn length_of_pages(&self) -> (r: usize)
        requires
            self.wf(),
        ensures
            r == self.pages() * PAGE_SIZE,
    {
        self.page_count * PAGE_SIZE
    }

    /// Bytes of data the region holds.
    pub fn length_of_data(&self) -> (r: usize)
        ensures
            r == self.contents().len(),
    {
        self.data.len()
    }

    /// The region's data.
    pub fn as_bytes(&self) -> (r: &[u8])
        ensures
            r@ == self.contents(),
    {
        self.data.as_slice()
    }

    /// A copy of `len` bytes at `offset`; an access past the data is refused.
    pub fn read(&self, offset: usize, len: usize) -> (r: Result<Vec<u8>, RrubError>)
        ensures
            offset + len > self.contents().len() ==> r == Err::<Vec<u8>, RrubError>(
                RrubError::Bounds,
            ),
            offset + len <= self.contents().len() ==> r is Ok && r->Ok_0@ == self.contents().subrange(
                offset as int,
                offset + len,
            ),
    {
        let n = self.data.len();
        if offset > n || len > n - offset {
            return Err(RrubError::Bounds);
        }
        Ok(copy_range(self.data.as_slice(), offset, len))
    }

    /// Writes `bytes` at `offset`; a write past the data is refused and
    /// changes nothing.
    pub fn write(&mut self, bytes: &[u8], offset: usize) -> (r: Result<(), RrubError>)
        ensures
            final(self).base() == old(self).base(),
            final(self).pages() == old(self).pages(),
            final(self).attrs() == old(self).attrs(),
            old(self).wf() ==> final(self).wf(),
            offset + bytes@.len() > old(self).contents().len() ==> r == Err::<(), RrubError>(
                RrubError::Bounds,
            ) && final(self).contents() == old(self).contents(),
            offset + bytes@.len() <= old(self).contents().len() ==> r is Ok
                && final(self).contents() == splice(old(self).contents(), offset as int, bytes@),
    {
        let n = self.data.len();
        if offset > n || bytes.len() > n - offset {
            return Err(RrubError::Bounds);
        }
        copy_into(&mut self.data, offset, bytes);
        Ok(())
    }

    /// Sets every byte of the data to zero.
    pub fn zero(&mut self)
        ensures
            final(self).base() == old(self).base(),
            final(self).pages() == old(self).pages(),
            final(self).attrs() == old(self).attrs(),
            old(self).wf() ==> final(self).wf(),
            final(self).contents() == Seq::new(old(self).contents().len(), |i: int| 0u8),
    {
        let n = self.data.len();
        let zeros = vec![0u8; n];
        copy_into(&mut self.data, 0, zeros.as_slice());
        assert(self.data@ =~= Seq::new(old(self).contents().len(), |i: int| 0u8));
    }

    /// Access rights of the region's pages, as the allocator reports them.
    pub fn get_mem_attrs<B: MemoryBackend>(&self, alloc: &mut PageAllocator<B>) -> (r: Result<
        MemAttr,
        RrubError,
    >)
        ensures
            final(alloc).calls() == old(alloc).calls().push(
                BackendCall::GetAttrs {
                    addr: self.base() as usize,
                    pages: self.pages() as usize,
                    answer: r,
                },
            ),
    {
        alloc.get_mem_attrs(self.start, self.page_count)
    }

    /// Sets the rights in `set` and clears those in `clear` on the region's
    /// pages; on success the region records the rights it now has.
    pub fn update_mem_attrs<B: MemoryBackend>(
        &mut self,
        alloc: &mut PageAllocator<B>,
        set: MemAttr,
        clear: MemAttr,
    ) -> (r: Result<(), RrubError>)
        ensures
            final(alloc).calls() == old(alloc).calls().push(
                BackendCall::UpdateAttrs {
                    addr: old(self).base() as usize,
                    pages: old(self).pages() as usize,
                    set,
                    clear,
                    answer: r,
                },
            ),
            final(self).base() == old(self).base(),
            final(self).pages() == old(self).pages(),
            final(self).contents() == old(self).contents(),
            old(self).wf() ==> final(self).wf(),
            r is Ok ==> final(self).attrs().spec_bits() == (old(self).attrs().spec_bits()
                | set.spec_bits()) & !clear.spec_bits(),
            r is Err ==> final(self).attrs() == old(self).attrs(),
    {
        let res = alloc.update_mem_attrs(self.start, self.page_count, set, clear);
        if res.is_ok() {
            self.mem_attrs = MemAttr { bits: (self.mem_attrs.bits | set.bits) & !clear.bits };
        }
        res
    }
}

/// Writing bytes into a region and reading the same range back gives the
/// bytes written, wherever the range lies inside the data.
pub proof fn lemma_write_then_read(data: Seq<u8>, bytes: Seq<u8>, offset: int)
    requires
        0 <= offset,
        offset + bytes.len() <= data.len(),
    ensures
        splice(data, offset, bytes).subrange(offset, offset + bytes.len()) == bytes,
        splice(data, offset, bytes).len() == data.len(),
{
    assert(splice(data, offset, bytes).subrange(offset, offset + bytes.len()) =~= bytes);
}

} // verus!
