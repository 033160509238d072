//! The errors that the device operations report.

use vstd::prelude::*;

verus! {

/// `std::io::Error`, carried through as the operating system gave it.
#[verifier::external_type_specification]
#[verifier::external_body]
pub struct ExIoError(std::io::Error);

/// `nix::errno::Errno`, the error number that a failed `mmap` leaves.
#[verifier::external_type_specification]
#[verifier::external_body]
pub struct ExErrno(nix::errno::Errno);

/// Why a device operation failed.
#[derive(Debug)]
pub enum UioError {
    /// An address was not valid. No operation reports it yet.
    Address,
    /// A mapping of length zero was asked for.
    Size,
    /// A file or descriptor operation failed.
    Io(std::io::Error),
    /// The kernel refused the memory mapping.
    MapFailed(nix::errno::Errno),
    /// An attribute did not hold a number in the expected format.
    Parse,
}

impl From<std::io::Error> for UioError {
    fn from(e: std::io::Error) -> (r: Self) {
        UioError::Io(e)
    }
}

impl vstd::std_specs::convert::FromSpecImpl<std::io::Error> for UioError {
    open spec fn obeys_from_spec() -> bool {
        true
    }

    open spec fn from_spec(e: std::io::Error) -> Self {
        UioError::Io(e)
    }
}

impl From<nix::errno::Errno> for UioError {
    fn from(e: nix::errno::Errno) -> (r: Self) {
        UioError::MapFailed(e)
    }
}

impl vstd::std_specs::convert::FromSpecImpl<nix::errno::Errno> for UioError {
    open spec fn obeys_from_spec() -> bool {
        true
    }

    open spec fn from_spec(e: nix::errno::Errno) -> Self {
        UioError::MapFailed(e)
    }
}

} // verus!
