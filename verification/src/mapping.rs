//! Requests for memory mappings and the regions they yield.

use crate::error::UioError;
use vstd::prelude::*;

verus! {

/// Base page size by which a mapping's index is turned into a file offset.
/// It is fixed and not asked of the running system.
pub const PAGESIZE: usize = 4096;

/// File offset, in bytes, at which the mapping with the given index starts.
pub open spec fn mapping_offset(mapping: int) -> int {
    mapping * PAGESIZE
}

/// The arguments of one `mmap` call. The address is left to the kernel.
#[derive(Debug, Clone, Copy, PartialEq, Eq)]
pub struct MapRequest {
    /// Descriptor of the file that backs the mapping.
    pub fd: i32,
    /// Offset in that file at which the mapping starts.
    pub offset: usize,
    /// Length of the mapping in bytes.
    pub length: usize,
    /// Pages may be read.
    pub read: bool,
    /// Pages may be written.
    pub write: bool,
    /// Pages may be executed.
    pub execute: bool,
    /// Writes are shared with the file and with other mappings of it.
    pub shared: bool,
}

/// A mapping that the kernel has made: where it starts and how long it is.
/// Unmapping it is left to the owner.
#[derive(Debug, Clone, Copy, PartialEq, Eq)]
pub struct MappedRegion {
    /// Address of the first byte.
    pub base: usize,
    /// Length in bytes.
    pub len: usize,
}

impl MapRequest {
    /// A request that this library makes: not empty, and shared, readable
    /// and writable, never executable.
    pub open spec fn wf(&self) -> bool {
        &&& self.length > 0
        &&& self.read
        &&& self.write
        &&& !self.execute
        &&& self.shared
    }

    /// A shared, readable and writable mapping of `length` bytes of `fd`,
    /// starting at `offset`. A length of zero is refused.
    pub fn shared_read_write(fd: i32, offset: usize, length: usize) -> (r: Result<
        MapRequest,
        UioError,
    >)
        ensures
            length == 0 ==> r == Err::<MapRequest, UioError>(UioError::Size),
            length > 0 ==> r == Ok::<MapRequest, UioError>(
                (MapRequest {
                    fd,
                    offset,
                    length,
                    read: true,
                    write: true,
                    execute: false,
                    shared: true,
                }),
            ),
            r matches Ok(request) ==> request.wf(),
    {
        if length == 0 {
            Err(UioError::Size)
        } else {
            Ok(MapRequest { fd, offset, length, read: true, write: true, execute: false, shared: true })
        }
    }

    /// Turns what `mmap` answered to this request into the mapped region, or
    /// into the error that wraps the kernel's refusal.
    pub fn finish(self, outcome: Result<usize, nix::errno::Errno>) -> (r: Result<
        MappedRegion,
        UioError,
    >)
        ensures
            r == match outcome {
                Ok(base) => Ok::<MappedRegion, UioError>(
                    (MappedRegion { base, len: self.length }),
                ),
                Err(e) => Err::<MappedRegion, UioError>(UioError::MapFailed(e)),
            },
    {
        match outcome {
            Ok(base) => Ok(MappedRegion { base, len: self.length }),
            Err(e) => Err(UioError::from(e)),
        }
    }
}

} // verus!
