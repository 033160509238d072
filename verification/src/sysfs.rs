//! Where the kernel shows a device in the file system, and what the
//! attribute files there hold.

use crate::error::UioError;
use crate::number::{decimal, hex_value, push_decimal, radix_value};
use crate::text::trimmed;
use vstd::prelude::*;
use vstd::string::StringExecFns;

verus! {

/// An attribute of the device itself.
#[derive(Clone, Copy, Debug)]
pub enum Attribute {
    /// The name that the driver reports.
    Name,
    /// The version that the driver reports.
    Version,
    /// The number of interrupt events so far, in decimal.
    Event,
}

/// An attribute of one of the device's mappings.
#[derive(Clone, Copy, Debug)]
pub enum MapAttribute {
    /// The physical address, in hexadecimal.
    Addr,
    /// The length in bytes, in hexadecimal.
    Size,
    /// The name that the driver gave the mapping.
    Name,
}

/// Path of the control file of device `num`.
pub open spec fn spec_dev_path(num: nat) -> Seq<char> {
    "/dev/uio"@ + decimal(num)
}

/// Path of the directory that describes device `num`.
pub open spec fn spec_class_dir(num: nat) -> Seq<char> {
    "/sys/class/uio/uio"@ + decimal(num)
}

/// File name of a device attribute, with the separator before it.
pub open spec fn spec_attribute_file(attribute: Attribute) -> Seq<char> {
    match attribute {
        Attribute::Name => "/name"@,
        Attribute::Version => "/version"@,
        Attribute::Event => "/event"@,
    }
}

/// Path of the file that holds an attribute of device `num`.
pub open spec fn spec_attribute_path(num: nat, attribute: Attribute) -> Seq<char> {
    spec_class_dir(num) + spec_attribute_file(attribute)
}

/// Path of the directory that lists the mappings of device `num`.
pub open spec fn spec_maps_dir(num: nat) -> Seq<char> {
    spec_class_dir(num) + "/maps/"@
}

/// File name of a mapping attribute, with the separator before it.
pub open spec fn spec_map_attribute_file(attribute: MapAttribute) -> Seq<char> {
    match attribute {
        MapAttribute::Addr => "/addr"@,
        MapAttribute::Size => "/size"@,
        MapAttribute::Name => "/name"@,
    }
}

/// Name of the directory that describes mapping `mapping`.
pub open spec fn spec_map_dir_name(mapping: nat) -> Seq<char> {
    "map"@ + decimal(mapping)
}

/// Path of the file that holds an attribute of mapping `mapping` of device
/// `num`.
pub open spec fn spec_map_attribute_path(num: nat, mapping: nat, attribute: MapAttribute) -> Seq<
    char,
> {
    spec_maps_dir(num) + spec_map_dir_name(mapping) + spec_map_attribute_file(attribute)
}

/// Path of the directory whose entries name the resources of device `num`.
pub open spec fn spec_device_dir(num: nat) -> Seq<char> {
    spec_class_dir(num) + "/device/"@
}

/// Name of the file that backs resource `bar`.
pub open spec fn spec_resource_name(bar: nat) -> Seq<char> {
    "resource"@ + decimal(bar)
}

/// Path of the file that backs resource `bar` of device `num`.
pub open spec fn spec_resource_path(num: nat, bar: nat) -> Seq<char> {
    spec_device_dir(num) + spec_resource_name(bar)
}

/// Builds the path of the control file of device `num`.
pub fn dev_path(num: usize) -> (path: String)
    ensures
        path@ == spec_dev_path(num as nat),
{
    let mut path = String::from_str("/dev/uio");
    push_decimal(&mut path, num);
    path
}

/// Builds the path of the directory that describes device `num`.
pub fn class_dir(num: usize) -> (path: String)
    ensures
        path@ == spec_class_dir(num as nat),
{
    let mut path = String::from_str("/sys/class/uio/uio");
    push_decimal(&mut path, num);
    path
}

/// Builds the path of the file that holds an attribute of device `num`.
pub fn attribute_path(num: usize, attribute: Attribute) -> (path: String)
    ensures
        path@ == spec_attribute_path(num as nat, attribute),
{
    let mut path = class_dir(num);
    match attribute {
        Attribute::Name => path.append("/name"),
        Attribute::Version => path.append("/version"),
        Attribute::Event => path.append("/event"),
    }
    path
}

/// Builds the path of the directory that lists the mappings of device `num`.
pub fn maps_dir(num: usize) -> (path: String)
    ensures
        path@ == spec_maps_dir(num as nat),
{
    let mut path = class_dir(num);
    path.append("/maps/");
    path
}

/// Builds the path of the file that holds an attribute of a mapping.
pub fn map_attribute_path(num: usize, mapping: usize, attribute: MapAttribute) -> (path: String)
    ensures
        path@ == spec_map_attribute_path(num as nat, mapping as nat, attribute),
{
    let mut path = maps_dir(num);
    path.append("map");
    push_decimal(&mut path, mapping);
    match attribute {
        MapAttribute::Addr => path.append("/addr"),
        MapAttribute::Size => path.append("/size"),
        MapAttribute::Name => path.append("/name"),
    }
    path
}

/// Builds the path of the directory whose entries name the resources.
pub fn device_dir(num: usize) -> (path: String)
    ensures
        path@ == spec_device_dir(num as nat),
{
    let mut path = class_dir(num);
    path.append("/device/");
    path
}

/// Builds the path of the file that backs resource `bar` of device `num`.
pub fn resource_path(num: usize, bar: usize) -> (path: String)
    ensures
        path@ == spec_resource_path(num as nat, bar as nat),
{
    let mut path = device_dir(num);
    path.append("resource");
    push_decimal(&mut path, bar);
    path
}

/// The text of an attribute, given what reading its file gave: the content
/// without the whitespace around it, or the error of the read.
pub open spec fn text_attribute(raw: Result<String, std::io::Error>) -> Result<
    Seq<char>,
    UioError,
> {
    match raw {
        Ok(content) => Ok(trimmed(content@)),
        Err(e) => Err(UioError::Io(e)),
    }
}

/// The address or length that an attribute holds: its text read as a
/// hexadecimal number with the prefix `0x`, as wide as an address.
pub open spec fn hex_attribute(raw: Result<String, std::io::Error>) -> Result<usize, UioError> {
    match text_attribute(raw) {
        Ok(text) => match hex_value(text, usize::MAX as nat) {
            Some(value) => Ok(value as usize),
            None => Err(UioError::Parse),
        },
        Err(e) => Err(e),
    }
}

/// The count that an attribute holds: its text read as a decimal number of
/// 32 bits.
pub open spec fn count_attribute(raw: Result<String, std::io::Error>) -> Result<u32, UioError> {
    match text_attribute(raw) {
        Ok(text) => match radix_value(text, 10, u32::MAX as nat) {
            Some(value) => Ok(value as u32),
            None => Err(UioError::Parse),
        },
        Err(e) => Err(e),
    }
}

/// Whether `text` is what `text_attribute` says of `raw`.
pub open spec fn is_text_attribute(text: Result<String, UioError>, raw: Result<
    String,
    std::io::Error,
>) -> bool {
    match text_attribute(raw) {
        Ok(expected) => text matches Ok(s) && s@ == expected,
        Err(e) => text == Err::<String, UioError>(e),
    }
}

} // verus!
