//! The handle of one UIO device on Linux.
//!
//! The handle decides; its caller talks to the operating system. Each
//! operation that needs the file system or the kernel takes what the caller
//! got from there, and says what follows from it.

use crate::error::UioError;
use crate::irq::{be_value, le_value, native_value, IRQ_WORD_LEN};
use crate::listing::{
    entry_map_name, entry_mapping, entry_resource, entry_resource_error, is_leading_mappings,
    listed_map_names, listed_resources, map_index_of, name_extends, name_views, names_fail_at,
    resource_views, resources_fail_at, MapAttributes, MapEntry, MappingInfo, ResourceEntry,
};
use crate::mapping::{mapping_offset, MapRequest, PAGESIZE};
use crate::sysfs::{
    count_attribute, dev_path, hex_attribute, is_text_attribute, spec_dev_path,
};
use crate::number::{parse_hex, parse_radix};
use crate::text::trim;
use vstd::prelude::*;

verus! {

/// How to wait for the exclusive lock on the control file.
#[derive(Clone, Copy, Debug, PartialEq, Eq, Structural)]
pub enum LockMode {
    /// Wait until the lock can be had.
    Blocking,
    /// Fail at once where another holder has it.
    NonBlocking,
}

/// What the caller does to acquire a device: open `path` with the access
/// asked for, then take the exclusive advisory lock on it as `lock` says.
#[derive(Debug)]
pub struct OpenRequest {
    /// Index of the device.
    pub uio_num: usize,
    /// Path of its control file.
    pub path: String,
    /// Open the file for reading.
    pub read: bool,
    /// Open the file for writing.
    pub write: bool,
    /// How to wait for the lock.
    pub lock: LockMode,
}

impl OpenRequest {
    /// Whether this is the request for device `uio_num` with the given way
    /// of waiting: its control file, opened for reading and writing.
    pub open spec fn asks_for(&self, uio_num: usize, lock: LockMode) -> bool {
        &&& self.uio_num == uio_num
        &&& self.path@ == spec_dev_path(uio_num as nat)
        &&& self.read
        &&& self.write
        &&& self.lock == lock
    }
}

/// An acquired device: its control file is open and locked for this handle
/// alone until the handle is given up.
#[derive(Debug)]
pub struct UioDevice {
    uio_num: usize,
    fd: i32,
    irq_enabled: bool,
}

/// What a handle stands for.
pub ghost struct DeviceView {
    /// Index of the device.
    pub num: usize,
    /// Descriptor of the open and locked control file.
    pub fd: i32,
    /// Whether the last switch of interrupts that succeeded was to on.
    pub irq_enabled: bool,
}

impl View for UioDevice {
    type V = DeviceView;

    closed spec fn view(&self) -> DeviceView {
        DeviceView { num: self.uio_num, fd: self.fd, irq_enabled: self.irq_enabled }
    }
}

/// The device after a write that was to switch interrupts: switched where
/// the whole word was written, unchanged otherwise.
pub open spec fn irq_switched(
    before: DeviceView,
    enable: bool,
    written: Result<usize, std::io::Error>,
) -> DeviceView {
    if written == Ok::<usize, std::io::Error>(IRQ_WORD_LEN) {
        DeviceView { irq_enabled: enable, ..before }
    } else {
        before
    }
}

/// Whether `r` is what a write of the command word comes to, given its
/// outcome: done where the whole word was written, the error of the write
/// where it failed, and an error where it stopped short.
pub open spec fn is_write_result(r: Result<(), std::io::Error>, written: Result<
    usize,
    std::io::Error,
>) -> bool {
    match written {
        Ok(n) => r is Ok <==> n == IRQ_WORD_LEN,
        Err(e) => r == Err::<(), std::io::Error>(e),
    }
}

/// `std::io::Error::from` makes, of the kind `WriteZero`, the error by which
/// std reports a write that did not take the whole buffer.
#[verifier::external_body]
fn short_write_error() -> std::io::Error {
    std::io::Error::from(std::io::ErrorKind::WriteZero)
}

/// `std::io::Error::from` makes, of the kind `UnexpectedEof`, the error by
/// which std reports a read that did not fill the whole buffer.
#[verifier::external_body]
fn short_read_error() -> std::io::Error {
    std::io::Error::from(std::io::ErrorKind::UnexpectedEof)
}

impl OpenRequest {
    /// Turns what opening and locking the control file gave into the handle:
    /// the descriptor of the locked file, or the error of the step that
    /// failed. A fresh handle has interrupts off.
    pub fn finish(self, outcome: Result<i32, std::io::Error>) -> (r: Result<
        UioDevice,
        std::io::Error,
    >)
        ensures
            match outcome {
                Ok(fd) => r matches Ok(device) && device@ == (DeviceView {
                    num: self.uio_num,
                    fd,
                    irq_enabled: false,
                }),
                Err(e) => r == Err::<UioDevice, std::io::Error>(e),
            },
    {
        match outcome {
            Ok(fd) => Ok(UioDevice { uio_num: self.uio_num, fd, irq_enabled: false }),
            Err(e) => Err(e),
        }
    }
}

impl UioDevice {
    /// The request for device `uio_num` that waits for the lock. Older name
    /// of `blocking_new`.
    pub fn new(uio_num: usize) -> (request: OpenRequest)
        ensures
            request.asks_for(uio_num, LockMode::Blocking),
    {
        Self::blocking_new(uio_num)
    }

    /// The request for device `uio_num` (1 for `/dev/uio1`) that waits until
    /// the exclusive lock on the device can be had.
    pub fn blocking_new(uio_num: usize) -> (request: OpenRequest)
        ensures
            request.asks_for(uio_num, LockMode::Blocking),
    {
        let path = dev_path(uio_num);
        OpenRequest { uio_num, path, read: true, write: true, lock: LockMode::Blocking }
    }

    /// The request for device `uio_num` (1 for `/dev/uio1`) that fails at
    /// once where the exclusive lock on the device is held elsewhere.
    pub fn try_new(uio_num: usize) -> (request: OpenRequest)
        ensures
            request.asks_for(uio_num, LockMode::NonBlocking),
    {
        let path = dev_path(uio_num);
        OpenRequest { uio_num, path, read: true, write: true, lock: LockMode::NonBlocking }
    }

    /// The mappable resources (PCI bars) of the device with their lengths,
    /// given the entries of its device directory in the order in which they
    /// were read. The first entry that could not be read, or that names a
    /// resource whose length could not be had, fails the whole listing.
    pub fn get_resource_info(
        &mut self,
        listing: Result<Vec<Result<ResourceEntry, std::io::Error>>, std::io::Error>,
    ) -> (r: Result<Vec<(String, u64)>, UioError>)
        ensures
            *final(self) == *old(self),
            match listing {
                Err(e) => r == Err::<Vec<(String, u64)>, UioError>(UioError::Io(e)),
                Ok(entries) => match r {
                    Ok(found) => {
                        &&& forall|i: int|
                            0 <= i < entries@.len() ==> entry_resource_error(
                                #[trigger] entries@[i],
                            ) is None
                        &&& resource_views(found@) == listed_resources(entries@)
                    },
                    Err(error) => exists|i: int| resources_fail_at(entries@, i, error),
                },
            },
    {
        let paths = match listing {
            Ok(entries) => entries,
            Err(e) => {
                return Err(UioError::from(e));
            },
        };
        let ghost all = paths@;
        let mut bars: Vec<(String, u64)> = Vec::new();
        proof {
            assert(all.take(0).filter_map(
                |entry: Result<ResourceEntry, std::io::Error>| entry_resource(entry),
            ) =~= Seq::empty());
        }
        for p in it: paths
            invariant
                *self == *old(self),
                listing matches Ok(entries) && entries@ == all,
                it.seq() == all,
                forall|j: int|
                    0 <= j < it.index() ==> entry_resource_error(#[trigger] all[j]) is None,
                resource_views(bars@) == listed_resources(all.take(it.index() as int)),
        {
            let ghost at = it.index() as int;
            proof {
                all.lemma_filter_map_take_succ(
                    |entry: Result<ResourceEntry, std::io::Error>| entry_resource(entry),
                    at,
                );
            }
            let path = match p {
                Ok(found) => found,
                Err(e) => {
                    assert(resources_fail_at(all, at, UioError::Io(e)));
                    return Err(UioError::from(e));
                },
            };
            let ResourceEntry { name: file_name, len: metadata } = path;
            if name_extends(file_name.as_str(), "resource") {
                let len: u64 = match metadata {
                    Ok(len) => len,
                    Err(e) => {
                        assert(resources_fail_at(all, at, UioError::Io(e)));
                        return Err(UioError::from(e));
                    },
                };
                let ghost before = bars@;
                bars.push((file_name, len));
                proof {
                    assert(resource_views(bars@) =~= resource_views(before).push(
                        (file_name@, len),
                    ));
                }
            }
        }
        proof {
            assert(all.take(all.len() as int) =~= all);
        }
        Ok(bars)
    }

    /// The request that maps a resource of the device (resource 1 is
    /// `device/resource1`) from its start, shared, for reading and writing,
    /// given what opening its file for reading and writing gave: the
    /// descriptor and the length of the file. A resource without length is
    /// not mapped.
    pub fn map_resource(&self, opened: Result<(i32, u64), std::io::Error>) -> (r: Result<
        MapRequest,
        UioError,
    >)
        ensures
            match opened {
                Err(e) => r == Err::<MapRequest, UioError>(UioError::Io(e)),
                Ok((fd, len)) => if len as usize == 0 {
                    r == Err::<MapRequest, UioError>(UioError::Size)
                } else {
                    r == Ok::<MapRequest, UioError>(
                        (MapRequest {
                            fd,
                            offset: 0,
                            length: len as usize,
                            read: true,
                            write: true,
                            execute: false,
                            shared: true,
                        }),
                    )
                },
            },
            r matches Ok(request) ==> request.wf(),
    {
        let (fd, metadata_len) = match opened {
            Ok(found) => found,
            Err(e) => {
                return Err(UioError::from(e));
            },
        };
        let length: usize = #[verifier::truncate]
        (metadata_len as usize);
        MapRequest::shared_read_write(fd, 0, length)
    }

    /// The text that a file of attributes holds, given what reading the
    /// file gave: the content without the whitespace around it.
    pub fn read_file(&self, raw: Result<String, std::io::Error>) -> (r: Result<String, UioError>)
        ensures
            is_text_attribute(r, raw),
    {
        match raw {
            Ok(buffer) => Ok(trim(buffer.as_str())),
            Err(e) => Err(UioError::from(e)),
        }
    }

    /// The number of interrupt events so far, given what reading the
    /// attribute `event` gave.
    pub fn get_event_count(&self, raw: Result<String, std::io::Error>) -> (r: Result<
        u32,
        UioError,
    >)
        ensures
            r == count_attribute(raw),
    {
        let buffer = self.read_file(raw)?;
        match parse_radix(buffer.as_str(), 10, u32::MAX as u64) {
            Some(v) => Ok(v as u32),
            None => Err(UioError::Parse),
        }
    }

    /// Index of the device (0 for `/dev/uio0`).
    pub fn get_num(&self) -> (num: usize)
        ensures
            num == self@.num,
    {
        self.uio_num
    }

    /// Path of the control file of the device (`/dev/uio0`).
    pub fn get_dev_path(&self) -> (path: String)
        ensures
            path@ == spec_dev_path(self@.num as nat),
    {
        dev_path(self.uio_num)
    }

    /// Whether the last switch of interrupts that succeeded was to on.
    pub fn irq_enabled(&self) -> (enabled: bool)
        ensures
            enabled == self@.irq_enabled,
    {
        self.irq_enabled
    }

    /// The name of the device, given what reading the attribute `name`
    /// gave.
    pub fn get_name(&self, raw: Result<String, std::io::Error>) -> (r: Result<String, UioError>)
        ensures
            is_text_attribute(r, raw),
    {
        self.read_file(raw)
    }

    /// The version of the driver, given what reading the attribute
    /// `version` gave.
    pub fn get_version(&self, raw: Result<String, std::io::Error>) -> (r: Result<
        String,
        UioError,
    >)
        ensures
            is_text_attribute(r, raw),
    {
        self.read_file(raw)
    }

    /// The length of a mapping, given what reading its attribute `size`
    /// gave.
    pub fn map_size(&self, raw: Result<String, std::io::Error>) -> (r: Result<usize, UioError>)
        ensures
            r == hex_attribute(raw),
    {
        let buffer = self.read_file(raw)?;
        match parse_hex(buffer.as_str(), usize::MAX as u64) {
            Some(v) => Ok(v as usize),
            None => Err(UioError::Parse),
        }
    }

    /// The address of a mapping, given what reading its attribute `addr`
    /// gave.
    pub fn map_addr(&self, raw: Result<String, std::io::Error>) -> (r: Result<usize, UioError>)
        ensures
            r == hex_attribute(raw),
    {
        let buffer = self.read_file(raw)?;
        match parse_hex(buffer.as_str(), usize::MAX as u64) {
            Some(v) => Ok(v as usize),
            None => Err(UioError::Parse),
        }
    }

    /// The name of a mapping, given what reading its attribute `name`
    /// gave.
    pub fn map_name(&self, raw: Result<String, std::io::Error>) -> (r: Result<String, UioError>)
        ensures
            is_text_attribute(r, raw),
    {
        self.read_file(raw)
    }

    /// The names of the mappings of the device, given the entries of its
    /// directory of mappings in the order in which they were read. The first
    /// entry that could not be read fails the whole listing. Older form of
    /// `get_mapping_info`.
    pub fn get_map_info(
        &mut self,
        listing: Result<Vec<Result<String, std::io::Error>>, std::io::Error>,
    ) -> (r: Result<Vec<String>, UioError>)
        ensures
            *final(self) == *old(self),
            match listing {
                Err(e) => r == Err::<Vec<String>, UioError>(UioError::Io(e)),
                Ok(entries) => match r {
                    Ok(found) => {
                        &&& forall|i: int| 0 <= i < entries@.len() ==> #[trigger] entries@[i] is Ok
                        &&& name_views(found@) == listed_map_names(entries@)
                    },
                    Err(error) => exists|i: int| names_fail_at(entries@, i, error),
                },
            },
    {
        let paths = match listing {
            Ok(entries) => entries,
            Err(e) => {
                return Err(UioError::from(e));
            },
        };
        let ghost all = paths@;
        let mut map: Vec<String> = Vec::new();
        proof {
            assert(all.take(0).filter_map(
                |entry: Result<String, std::io::Error>| entry_map_name(entry),
            ) =~= Seq::empty());
        }
        for p in it: paths
            invariant
                *self == *old(self),
                listing matches Ok(entries) && entries@ == all,
                it.seq() == all,
                forall|j: int| 0 <= j < it.index() ==> #[trigger] all[j] is Ok,
                name_views(map@) == listed_map_names(all.take(it.index() as int)),
        {
            let ghost at = it.index() as int;
            proof {
                all.lemma_filter_map_take_succ(
                    |entry: Result<String, std::io::Error>| entry_map_name(entry),
                    at,
                );
            }
            let file_name = match p {
                Ok(name) => name,
                Err(e) => {
                    assert(names_fail_at(all, at, UioError::Io(e)));
                    return Err(UioError::from(e));
                },
            };
            if name_extends(file_name.as_str(), "map") {
                map.push(file_name);
            }
        }
        proof {
            assert(all.take(all.len() as int) =~= all);
        }
        Ok(map)
    }

    /// All that the kernel tells of the mappings of the device, given the
    /// entries of its directory of mappings in the order in which they were
    /// read. The listing ends before the first entry that does not describe
    /// a mapping in full: what was gathered until then is the result, and
    /// the entry's failure is not reported.
    pub fn get_mapping_info(
        &mut self,
        listing: Result<Vec<Result<MapEntry, std::io::Error>>, std::io::Error>,
    ) -> (r: Result<Vec<MappingInfo>, UioError>)
        ensures
            *final(self) == *old(self),
            match listing {
                Err(e) => r == Err::<Vec<MappingInfo>, UioError>(UioError::Io(e)),
                Ok(entries) => r matches Ok(found) && is_leading_mappings(found@, entries@),
            },
    {
        let paths = match listing {
            Ok(entries) => entries,
            Err(e) => {
                return Err(UioError::from(e));
            },
        };
        let ghost all = paths@;
        let mut map: Vec<MappingInfo> = Vec::new();
        for p in it: paths
            invariant
                *self == *old(self),
                listing matches Ok(entries) && entries@ == all,
                it.seq() == all,
                map@.len() == it.index(),
                forall|j: int|
                    0 <= j < it.index() ==> entry_mapping(#[trigger] all[j]) == Some(map@[j]@),
        {
            let entry = match p {
                Ok(entry) => entry,
                Err(_) => {
                    return Ok(map);
                },
            };
            let MapEntry { name, is_dir, attributes } = entry;
            let dir_name = match name {
                Some(dir_name) => dir_name,
                None => {
                    return Ok(map);
                },
            };
            match is_dir {
                Ok(true) => {},
                _ => {
                    return Ok(map);
                },
            }
            let index: usize = match map_index_of(dir_name.as_str()) {
                Some(index) => index,
                None => {
                    return Ok(map);
                },
            };
            let MapAttributes { addr, name, size } = match attributes {
                Some(attributes) => attributes,
                None => {
                    return Ok(map);
                },
            };
            let addr: usize = match self.map_addr(addr) {
                Ok(addr) => addr,
                Err(_) => {
                    return Ok(map);
                },
            };
            let name = match self.map_name(name) {
                Ok(name) => name,
                Err(_) => {
                    return Ok(map);
                },
            };
            let len: usize = match self.map_size(size) {
                Ok(len) => len,
                Err(_) => {
                    return Ok(map);
                },
            };
            map.push(MappingInfo { index, addr, len, name });
        }
        Ok(map)
    }

    /// The request that maps a mapping of the device (mapping 1 is
    /// `maps/map1`), shared, for reading and writing, given what reading its
    /// attribute `size` gave. The mapping starts in the control file at its
    /// index times the page size and has the length that the attribute
    /// holds. A mapping without length is not mapped.
    pub fn map_mapping(&self, mapping: usize, size: Result<String, std::io::Error>) -> (r: Result<
        MapRequest,
        UioError,
    >)
        requires
            mapping_offset(mapping as int) <= usize::MAX,
        ensures
            r == spec_map_mapping(self@, mapping, size),
            r matches Ok(request) ==> {
                &&& request.wf()
                &&& request.offset == mapping * PAGESIZE
                &&& hex_attribute(size) == Ok::<usize, UioError>(request.length)
            },
    {
        let offset: usize = mapping * PAGESIZE;
        let fd: i32 = self.fd;
        let map_size: usize = self.map_size(size)?;
        MapRequest::shared_read_write(fd, offset, map_size)
    }

    /// Switches interrupts on, given what writing the command of
    /// `irq_command(true)` to the control file gave. The write failed where
    /// it gave an error or took less than the whole command; the device is
    /// then as it was.
    pub fn irq_enable(&mut self, written: Result<usize, std::io::Error>) -> (r: Result<
        (),
        std::io::Error,
    >)
        ensures
            is_write_result(r, written),
            final(self)@ == irq_switched(old(self)@, true, written),
    {
        let n: usize = written?;
        if n != IRQ_WORD_LEN {
            return Err(short_write_error());
        }
        self.irq_enabled = true;
        Ok(())
    }

    /// Switches interrupts off, given what writing the command of
    /// `irq_command(false)` to the control file gave. The write failed where
    /// it gave an error or took less than the whole command; the device is
    /// then as it was.
    pub fn irq_disable(&mut self, written: Result<usize, std::io::Error>) -> (r: Result<
        (),
        std::io::Error,
    >)
        ensures
            is_write_result(r, written),
            final(self)@ == irq_switched(old(self)@, false, written),
    {
        let n: usize = written?;
        if n != IRQ_WORD_LEN {
            return Err(short_write_error());
        }
        self.irq_enabled = false;
        Ok(())
    }

    /// The count of interrupts that the kernel reports, given what a read of
    /// four bytes from the control file gave: how many bytes came, and the
    /// buffer. The read failed where it gave an error or fewer bytes.
    pub fn irq_wait(&mut self, read: Result<usize, std::io::Error>, bytes: [u8; 4]) -> (r: Result<
        u32,
        std::io::Error,
    >)
        ensures
            *final(self) == *old(self),
            match read {
                Ok(n) => if n == IRQ_WORD_LEN {
                    r matches Ok(count) && (count == le_value(bytes@) || count == be_value(
                        bytes@,
                    ))
                } else {
                    r is Err
                },
                Err(e) => r == Err::<u32, std::io::Error>(e),
            },
    {
        let n: usize = read?;
        if n != IRQ_WORD_LEN {
            return Err(short_read_error());
        }
        Ok(native_value(bytes))
    }
}

/// What `map_mapping` answers for mapping `mapping` of `device`, given what
/// reading the mapping's attribute `size` gave.
pub open spec fn spec_map_mapping(
    device: DeviceView,
    mapping: usize,
    size: Result<String, std::io::Error>,
) -> Result<MapRequest, UioError> {
    match hex_attribute(size) {
        Err(e) => Err(e),
        Ok(len) => if len == 0 {
            Err(UioError::Size)
        } else {
            Ok(
                MapRequest {
                    fd: device.fd,
                    offset: mapping_offset(mapping as int) as usize,
                    length: len,
                    read: true,
                    write: true,
                    execute: false,
                    shared: true,
                },
            )
        },
    }
}

/// A mapping that the listing shows can be mapped exactly when the listing
/// shows a length other than zero for it: for the attribute `size` from
/// which entry `i` of the listing was made, `map_mapping` fails for want of
/// a length if and only if the listed length is zero, and otherwise asks
/// for the listed length at the offset of the listed index.
pub proof fn lemma_listed_length_decides_mapping(
    device: DeviceView,
    entries: Seq<Result<MapEntry, std::io::Error>>,
    found: Seq<MappingInfo>,
    i: int,
)
    requires
        is_leading_mappings(found, entries),
        0 <= i < found.len(),
    ensures
        entries[i] matches Ok(entry) && entry.attributes matches Some(attributes) && ({
            let r = spec_map_mapping(device, found[i].index, attributes.size);
            &&& r == Err::<MapRequest, UioError>(UioError::Size) <==> found[i].len == 0
            &&& r is Ok <==> found[i].len != 0
            &&& r matches Ok(request) ==> {
                &&& request.length == found[i].len
                &&& mapping_offset(found[i].index as int) <= usize::MAX ==> request.offset
                    == mapping_offset(found[i].index as int)
            }
        }),
{
}

/// Switching interrupts on and then off again leaves a device whose
/// interrupts were off as it was, whatever became of the first write, as
/// long as the second write succeeded.
pub proof fn lemma_enable_then_disable(device: DeviceView, enabling: Result<usize, std::io::Error>)
    requires
        !device.irq_enabled,
    ensures
        irq_switched(
            irq_switched(device, true, enabling),
            false,
            Ok::<usize, std::io::Error>(IRQ_WORD_LEN),
        ) == device,
{
}

} // verus!
