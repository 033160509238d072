//! What a device's directories list: its resources and its mappings.

use crate::error::UioError;
use crate::number::{
    decimal, lemma_decimal_is_digits, lemma_decimal_round_trip, parse_radix_from, radix_value,
};
use crate::sysfs::{hex_attribute, spec_map_dir_name, spec_resource_name, text_attribute};
use crate::text::{chars_of, skip_repeated, starts_with_at, strip_repeated};
use vstd::prelude::*;

verus! {

/// All that the kernel tells of one mapping of a device.
#[derive(Debug, PartialEq, Eq)]
pub struct MappingInfo {
    /// Index of the mapping: the `0` in `maps/map0`.
    pub index: usize,
    /// Physical address of the mapping.
    pub addr: usize,
    /// Length of the mapped region in bytes.
    pub len: usize,
    /// Name that the driver gave the mapping.
    pub name: String,
}

/// A `MappingInfo` with its name as a sequence of characters.
pub ghost struct MappingInfoView {
    pub index: usize,
    pub addr: usize,
    pub len: usize,
    pub name: Seq<char>,
}

impl View for MappingInfo {
    type V = MappingInfoView;

    open spec fn view(&self) -> MappingInfoView {
        MappingInfoView { index: self.index, addr: self.addr, len: self.len, name: self.name@ }
    }
}

/// One entry of the directory of resources, as the caller found it.
#[derive(Debug)]
pub struct ResourceEntry {
    /// The entry's file name.
    pub name: String,
    /// The length of the file in bytes, or why it could not be had.
    pub len: Result<u64, std::io::Error>,
}

/// What reading the three attribute files of a mapping gave.
#[derive(Debug)]
pub struct MapAttributes {
    /// Content of `addr`.
    pub addr: Result<String, std::io::Error>,
    /// Content of `name`.
    pub name: Result<String, std::io::Error>,
    /// Content of `size`.
    pub size: Result<String, std::io::Error>,
}

/// One entry of the directory of mappings, as the caller found it.
#[derive(Debug)]
pub struct MapEntry {
    /// The entry's file name, or `None` where it is not valid UTF-8.
    pub name: Option<String>,
    /// Whether the entry is a directory, or why that could not be told.
    pub is_dir: Result<bool, std::io::Error>,
    /// The attribute files of the mapping that the name gives, read at the
    /// paths that its index gives; `None` where the name gives no index.
    pub attributes: Option<MapAttributes>,
}

/// Whether `name` is `prefix` followed by at least one more character.
pub open spec fn extends_prefix(name: Seq<char>, prefix: Seq<char>) -> bool {
    prefix.is_prefix_of(name) && name.len() > prefix.len()
}

/// Whether a directory entry of this name is a resource of the device.
pub open spec fn is_resource_name(name: Seq<char>) -> bool {
    extends_prefix(name, "resource"@)
}

/// Whether a directory entry of this name is a mapping of the device.
pub open spec fn is_map_name(name: Seq<char>) -> bool {
    extends_prefix(name, "map"@)
}

/// The index of the mapping that a directory of this name describes: the
/// name starts with `map`, and what follows the leading repetitions of `map`
/// is the index in decimal.
pub open spec fn map_index(name: Seq<char>) -> Option<usize> {
    if "map"@.is_prefix_of(name) {
        match radix_value(strip_repeated(name, "map"@), 10, usize::MAX as nat) {
            Some(index) => Some(index as usize),
            None => None,
        }
    } else {
        None
    }
}

/// Tests whether `name` is `prefix` followed by at least one more character.
pub fn name_extends(name: &str, prefix: &str) -> (b: bool)
    ensures
        b == extends_prefix(name@, prefix@),
{
    let v = chars_of(name);
    let p = chars_of(prefix);
    starts_with_at(&v, 0, &p) && v.len() > p.len()
}

/// Reads the index of a mapping from the name of its directory.
pub fn map_index_of(name: &str) -> (r: Option<usize>)
    ensures
        r == map_index(name@),
{
    let v = chars_of(name);
    let p = chars_of("map");
    if !starts_with_at(&v, 0, &p) {
        return None;
    }
    let from: usize = skip_repeated(&v, &p);
    match parse_radix_from(&v, from, 10, usize::MAX as u64) {
        Some(index) => Some(index as usize),
        None => None,
    }
}

/// The resource that a directory entry stands for, if it names one and its
/// length is known.
pub open spec fn entry_resource(entry: Result<ResourceEntry, std::io::Error>) -> Option<
    (Seq<char>, u64),
> {
    match entry {
        Ok(found) => match found.len {
            Ok(len) if is_resource_name(found.name@) => Some((found.name@, len)),
            _ => None,
        },
        Err(_) => None,
    }
}

/// The error on which a directory entry makes the listing of resources
/// fail: the entry could not be read, or it names a resource whose length
/// could not be had.
pub open spec fn entry_resource_error(entry: Result<ResourceEntry, std::io::Error>) -> Option<
    std::io::Error,
> {
    match entry {
        Ok(found) => match found.len {
            Err(e) if is_resource_name(found.name@) => Some(e),
            _ => None,
        },
        Err(e) => Some(e),
    }
}

/// The mapping that a directory entry describes: the entry is a readable
/// directory whose name gives an index, and its three attributes were read
/// and hold an address, a name and a length.
pub open spec fn entry_mapping(entry: Result<MapEntry, std::io::Error>) -> Option<
    MappingInfoView,
> {
    match entry {
        Ok(found) => match (found.name, found.is_dir, found.attributes) {
            (Some(name), Ok(true), Some(attributes)) => match (
                map_index(name@),
                hex_attribute(attributes.addr),
                text_attribute(attributes.name),
                hex_attribute(attributes.size),
            ) {
                (Some(index), Ok(addr), Ok(label), Ok(len)) => Some(
                    MappingInfoView { index, addr, len, name: label },
                ),
                _ => None,
            },
            _ => None,
        },
        Err(_) => None,
    }
}

/// The pairs of name and length, with each name as a sequence of characters.
pub open spec fn resource_views(found: Seq<(String, u64)>) -> Seq<(Seq<char>, u64)> {
    found.map_values(|pair: (String, u64)| (pair.0@, pair.1))
}

/// The names as sequences of characters.
pub open spec fn name_views(found: Seq<String>) -> Seq<Seq<char>> {
    found.map_values(|name: String| name@)
}

/// The name of a directory entry that is listed among the mappings.
pub open spec fn entry_map_name(entry: Result<String, std::io::Error>) -> Option<Seq<char>> {
    match entry {
        Ok(name) if is_map_name(name@) => Some(name@),
        _ => None,
    }
}

/// The resources that the entries of a directory list, in their order.
pub open spec fn listed_resources(entries: Seq<Result<ResourceEntry, std::io::Error>>) -> Seq<
    (Seq<char>, u64),
> {
    entries.filter_map(|entry: Result<ResourceEntry, std::io::Error>| entry_resource(entry))
}

/// The names of mappings that the entries of a directory list, in their
/// order.
pub open spec fn listed_map_names(entries: Seq<Result<String, std::io::Error>>) -> Seq<
    Seq<char>,
> {
    entries.filter_map(|entry: Result<String, std::io::Error>| entry_map_name(entry))
}

/// Whether the listing of resources fails on entry `i`, and on none before
/// it, with `error`.
pub open spec fn resources_fail_at(
    entries: Seq<Result<ResourceEntry, std::io::Error>>,
    i: int,
    error: UioError,
) -> bool {
    &&& 0 <= i < entries.len()
    &&& entry_resource_error(entries[i]) matches Some(e) && error == UioError::Io(e)
    &&& forall|j: int| 0 <= j < i ==> entry_resource_error(#[trigger] entries[j]) is None
}

/// Whether the listing of names fails on entry `i`, which could not be read,
/// and on none before it, with `error`.
pub open spec fn names_fail_at(
    entries: Seq<Result<String, std::io::Error>>,
    i: int,
    error: UioError,
) -> bool {
    &&& 0 <= i < entries.len()
    &&& entries[i] matches Err(e) && error == UioError::Io(e)
    &&& forall|j: int| 0 <= j < i ==> #[trigger] entries[j] is Ok
}

/// Whether `found` describes the entries up to the first one that describes
/// no mapping, and no others.
pub open spec fn is_leading_mappings(
    found: Seq<MappingInfo>,
    entries: Seq<Result<MapEntry, std::io::Error>>,
) -> bool {
    &&& found.len() <= entries.len()
    &&& forall|i: int|
        0 <= i < found.len() ==> entry_mapping(#[trigger] entries[i]) == Some(found[i]@)
    &&& found.len() < entries.len() ==> entry_mapping(entries[found.len() as int]) is None
}

/// The directory that the paths of a mapping's attributes name gives the
/// mapping's index back.
pub proof fn lemma_map_dir_name_gives_index(index: usize)
    ensures
        map_index(spec_map_dir_name(index as nat)) == Some(index),
{
    reveal_strlit("map");
    let digits = decimal(index as nat);
    lemma_decimal_is_digits(index as nat);
    assert(spec_map_dir_name(index as nat).skip(3) =~= digits);
    assert(!"map"@.is_prefix_of(digits)) by {
        if "map"@.is_prefix_of(digits) {
            assert(digits.subrange(0, 3)[0] == digits[0]);
        }
    }
    assert(strip_repeated(digits, "map"@) == digits);
    lemma_decimal_round_trip(index as nat, usize::MAX as nat);
}

/// The file that the path of a resource names is listed as a resource.
pub proof fn lemma_resource_name_is_listed(bar: nat)
    ensures
        is_resource_name(spec_resource_name(bar)),
{
    reveal_strlit("resource");
}

} // verus!
