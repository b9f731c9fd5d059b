//! File access as the loader's file system backends offer it.
use vstd::prelude::*;

use core::marker::PhantomData;

verus! {

/// Why a file operation failed.
pub enum FilesystemError {
    /// The backend cannot perform the operation.
    Unsupported,
}

/// Where a seek moves to: from the start, from the end or from the current
/// position.
pub enum SeekFrom {
    Start(u64),
    End(i64),
    Current(i64),
}

pub trait Seek {
    /// Moves the position and returns it, counted from the start.
    fn seek(&mut self, pos: SeekFrom) -> Result<u64, FilesystemError>;

    /// Moves the position by `offset` from where it is.
    fn seek_relative(&mut self, offset: i64) -> Result<(), FilesystemError> {
        match self.seek(SeekFrom::Current(offset)) {
            Ok(_) => Ok(()),
            Err(e) => Err(e),
        }
    }
}

pub trait FilesytemBackend {

}

pub struct File<B: FilesytemBackend> {
    _backend: PhantomData<B>,
}

} // verus!
