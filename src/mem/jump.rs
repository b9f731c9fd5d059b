//! The trampoline used when no firmware-native handover exists: a small
//! position-independent fragment, copied next to its target, that loads
//! staged register values and jumps.
use vstd::prelude::*;

use crate::bytes::{le_bytes, splice, u64_to_le_bytes};
use crate::error::RrubError;
use crate::mem::MemoryRegion;

verus! {

/// Size of the register staging area: six 64-bit values.
pub const STAGING_AREA_SIZE: usize = 48;

/// Register values the trampoline loads, the instruction pointer last.
#[derive(Debug, Clone, Copy, PartialEq, Eq, Structural)]
pub struct RegisterSet {
    pub rax: u64,
    pub rbx: u64,
    pub rcx: u64,
    pub rdx: u64,
    pub rsi: u64,
    pub rip: u64,
}

/// The staging area's bytes: rax, rbx, rcx, rdx, rsi and rip, each
/// little-endian.
pub open spec fn staging_bytes(r: RegisterSet) -> Seq<u8> {
    le_bytes(r.rax as int, 8) + le_bytes(r.rbx as int, 8) + le_bytes(r.rcx as int, 8) + le_bytes(
        r.rdx as int,
        8,
    ) + le_bytes(r.rsi as int, 8) + le_bytes(r.rip as int, 8)
}

pub struct Relocator {
    code: Vec<u8>,
    registers: RegisterSet,
}

impl Relocator {
    pub closed spec fn spec_code(&self) -> Seq<u8> {
        self.code@
    }

    pub closed spec fn spec_registers(&self) -> RegisterSet {
        self.registers
    }

    /// A trampoline of machine code `code`, with every register staged as zero.
    pub fn new(code: Vec<u8>) -> (r: Relocator)
        ensures
            r.spec_code() == code@,
            r.spec_registers() == (RegisterSet { rax: 0, rbx: 0, rcx: 0, rdx: 0, rsi: 0, rip: 0 }),
    {
        Relocator { code, registers: RegisterSet { rax: 0, rbx: 0, rcx: 0, rdx: 0, rsi: 0, rip: 0 } }
    }

    /// Bytes of machine code.
    pub fn size(&self) -> (r: usize)
        ensures
            r == self.spec_code().len(),
    {
        self.code.len()
    }

    /// Copies the code into `region` at `offset`, so that it runs from memory
    /// the loader owns.
    pub fn copy_to(&self, region: &mut MemoryRegion, offset: usize) -> (r: Result<(), RrubError>)
        ensures
            final(region).base() == old(region).base(),
            final(region).pages() == old(region).pages(),
            old(region).wf() ==> final(region).wf(),
            offset + self.spec_code().len() > old(region).contents().len() ==> r == Err::<
                (),
                RrubError,
            >(RrubError::Bounds) && final(region).contents() == old(region).contents(),
            offset + self.spec_code().len() <= old(region).contents().len() ==> r is Ok
                && final(region).contents() == splice(old(region).contents(), offset as int, self.spec_code()),
    {
        region.write(self.code.as_slice(), offset)
    }

    /// Stages the values the registers get before the jump to `rip`.
    pub fn set_registers(&mut self, rax: u64, rbx: u64, rcx: u64, rdx: u64, rip: u64, rsi: u64)
        ensures
            final(self).spec_code() == old(self).spec_code(),
            final(self).spec_registers() == (RegisterSet { rax, rbx, rcx, rdx, rsi, rip }),
    {
        self.registers = RegisterSet { rax, rbx, rcx, rdx, rsi, rip };
    }

    pub fn registers(&self) -> (r: RegisterSet)
        ensures
            r == self.spec_registers(),
    {
        self.registers
    }

    /// The staging area as the trampoline reads it.
    pub fn staging_area(&self) -> (r: Vec<u8>)
        ensures
            r@ == staging_bytes(self.spec_registers()),
    {
        let regs = self.registers;
        let values = [regs.rax, regs.rbx, regs.rcx, regs.rdx, regs.rsi, regs.rip];
        let mut r: Vec<u8> = Vec::with_capacity(STAGING_AREA_SIZE);
        let mut k: usize = 0;
        while k < 6
            invariant
                0 <= k <= 6,
                values@ == seq![regs.rax, regs.rbx, regs.rcx, regs.rdx, regs.rsi, regs.rip],
                r@.len() == 8 * k,
                forall|j: int|
                    0 <= j < k ==> #[trigger] r@.subrange(8 * j, 8 * j + 8) == le_bytes(
                        values@[j] as int,
                        8,
                    ),
            decreases 6 - k,
        {
            let b = u64_to_le_bytes(values[k]);
            let ghost prev = r@;
            let mut i: usize = 0;
            while i < 8
                invariant
                    0 <= i <= 8,
                    r@ == prev + b@.subrange(0, i as int),
                decreases 8 - i,
            {
                r.push(b[i]);
                i = i + 1;
                assert(r@ =~= prev + b@.subrange(0, i as int));
            }
            assert(b@.subrange(0, 8) =~= b@);
            assert forall|j: int| 0 <= j < k + 1 implies #[trigger] r@.subrange(8 * j, 8 * j + 8)
                == le_bytes(values@[j] as int, 8) by {
                if j < k {
                    assert(r@.subrange(8 * j, 8 * j + 8) =~= prev.subrange(8 * j, 8 * j + 8));
                } else {
                    assert(r@.subrange(8 * j, 8 * j + 8) =~= b@);
                }
            }
            k = k + 1;
        }
        assert(r@.subrange(8 * 0int, 8 * 0int + 8) == le_bytes(values@[0] as int, 8));
        assert(r@.subrange(8 * 1int, 8 * 1int + 8) == le_bytes(values@[1] as int, 8));
        assert(r@.subrange(8 * 2int, 8 * 2int + 8) == le_bytes(values@[2] as int, 8));
        assert(r@.subrange(8 * 3int, 8 * 3int + 8) == le_bytes(values@[3] as int, 8));
        assert(r@.subrange(8 * 4int, 8 * 4int + 8) == le_bytes(values@[4] as int, 8));
        assert(r@.subrange(8 * 5int, 8 * 5int + 8) == le_bytes(values@[5] as int, 8));
        assert(r@ =~= r@.subrange(0, 8) + r@.subrange(8, 16) + r@.subrange(16, 24) + r@.subrange(
            24,
            32,
        ) + r@.subrange(32, 40) + r@.subrange(40, 48));
        r
    }
}

} // verus!
