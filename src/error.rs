use vstd::prelude::*;

verus! {

/// Every failure the loader core reports. No step is retried: the first
/// error aborts the whole boot attempt.
#[derive(Debug, Clone, Copy, PartialEq, Eq, Structural)]
pub enum RrubError {
    CommandError,
    UnsupportedResolution(usize, usize),
    UnsupportedColourFormat,
    Overflow,
    DrawingError,
    MemoryFault,
    /// A firmware call failed; the value is the firmware's status code.
    FirmwareError(usize),
    /// A requested physical address is not a multiple of the page size.
    UnalignedMemoryAddress,
    /// The page allocator could not honor a request for a specific address.
    PlacementConflict,
    /// The firmware memory map has more entries than the kernel's table holds.
    MemoryMapOverflow,
    /// The image is too short for the range it must hold, or its magic is wrong.
    MalformedImage,
    /// A byte access lies outside the object it addresses.
    Bounds,
    /// The firmware memory services were already relinquished.
    ServicesExited,
    /// The handover call came back, which it never does on success.
    HandoverReturned,
}

} // verus!
