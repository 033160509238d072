//! Userspace I/O (UIO) devices on Linux: the rules of the handle, proved.
//!
//! A UIO device shows itself as a control file (`/dev/uio0`) and as a
//! directory of attribute files (`/sys/class/uio/uio0`). This library holds
//! what there is to decide about such a device, and leaves every system call
//! to its caller:
//!
//! - [`sysfs`] names the files and says what their contents mean;
//! - [`text`] and [`number`] trim attribute text and read and write numbers;
//! - [`listing`] says which directory entries are resources and mappings;
//! - [`mapping`] holds the arguments of an `mmap` call and what comes of it;
//! - [`irq`] holds the words that switch and count interrupts;
//! - [`linux`] is the handle, [`UioDevice`], whose operations take what the
//!   caller read, wrote, opened or mapped and say what follows from it;
//! - [`error`] is what they report when nothing good follows.
//!
//! To acquire a device, take a request from [`UioDevice::blocking_new`] or
//! [`UioDevice::try_new`], open and lock the file as the request says, and
//! hand the outcome to [`OpenRequest::finish`].

pub mod error;
pub mod irq;
pub mod linux;
pub mod listing;
pub mod mapping;
pub mod number;
pub mod sysfs;
pub mod text;

pub use error::UioError;
pub use linux::{LockMode, OpenRequest, UioDevice};
pub use listing::{MapAttributes, MapEntry, MappingInfo, ResourceEntry};
pub use mapping::{MapRequest, MappedRegion};
