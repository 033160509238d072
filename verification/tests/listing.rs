use uio::error::UioError;
use uio::linux::UioDevice;
use uio::listing::{map_index_of, name_extends, MapAttributes, MapEntry, MappingInfo, ResourceEntry};

fn device() -> UioDevice {
    UioDevice::try_new(0).finish(Ok(3)).unwrap()
}

fn text(s: &str) -> Result<String, std::io::Error> {
    Ok(s.to_string())
}

fn missing<T>() -> Result<T, std::io::Error> {
    Err(std::io::Error::from(std::io::ErrorKind::NotFound))
}

fn resource(name: &str, len: u64) -> Result<ResourceEntry, std::io::Error> {
    Ok(ResourceEntry { name: name.to_string(), len: Ok(len) })
}

fn mapping(name: &str, addr: &str, size: &str, label: &str) -> Result<MapEntry, std::io::Error> {
    Ok(MapEntry {
        name: Some(name.to_string()),
        is_dir: Ok(true),
        attributes: Some(MapAttributes { addr: text(addr), name: text(label), size: text(size) }),
    })
}

fn info(index: usize, addr: usize, len: usize, name: &str) -> MappingInfo {
    MappingInfo { index, addr, len, name: name.to_string() }
}

#[test]
fn resources_are_listed_with_their_lengths() {
    let mut dev = device();
    let found = dev
        .get_resource_info(Ok(vec![resource("resource0", 4096), resource("resource1", 8192)]))
        .unwrap();
    assert_eq!(
        found,
        vec![("resource0".to_string(), 4096), ("resource1".to_string(), 8192)]
    );
    let length = found.iter().find(|(name, _)| name == "resource1").unwrap().1;
    let region = dev.map_resource(Ok((4, length))).unwrap().finish(Ok(0x1000)).unwrap();
    assert_eq!(region.len, 8192);
}

#[test]
fn resources_keep_the_order_of_the_directory() {
    let mut dev = device();
    let found = dev
        .get_resource_info(Ok(vec![
            resource("resource1", 8192),
            resource("vendor", 6),
            resource("resource0", 4096),
            resource("resource0_wc", 4096),
        ]))
        .unwrap();
    assert_eq!(
        found,
        vec![
            ("resource1".to_string(), 8192),
            ("resource0".to_string(), 4096),
            ("resource0_wc".to_string(), 4096),
        ]
    );
}

#[test]
fn other_entries_are_no_resources() {
    let mut dev = device();
    let found = dev
        .get_resource_info(Ok(vec![
            resource("resource", 1),
            resource("resourc0", 2),
            resource("Resource0", 3),
            resource("xresource0", 4),
            resource("", 5),
            Ok(ResourceEntry { name: "config".to_string(), len: missing() }),
        ]))
        .unwrap();
    assert_eq!(found, vec![]);
    assert_eq!(dev.get_resource_info(Ok(vec![])).unwrap(), vec![]);
}

#[test]
fn unreadable_resource_directory_is_an_io_error() {
    let mut dev = device();
    assert!(matches!(
        dev.get_resource_info(missing()),
        Err(UioError::Io(e)) if e.kind() == std::io::ErrorKind::NotFound
    ));
}

#[test]
fn first_unreadable_resource_fails_the_listing() {
    let mut dev = device();
    let r = dev.get_resource_info(Ok(vec![
        resource("resource0", 4096),
        Ok(ResourceEntry {
            name: "resource1".to_string(),
            len: Err(std::io::Error::from(std::io::ErrorKind::PermissionDenied)),
        }),
        Err(std::io::Error::from(std::io::ErrorKind::Interrupted)),
    ]));
    assert!(matches!(r, Err(UioError::Io(e)) if e.kind() == std::io::ErrorKind::PermissionDenied));

    let r = dev.get_resource_info(Ok(vec![
        Err(std::io::Error::from(std::io::ErrorKind::Interrupted)),
        resource("resource0", 4096),
    ]));
    assert!(matches!(r, Err(UioError::Io(e)) if e.kind() == std::io::ErrorKind::Interrupted));
}

#[test]
fn names_of_mappings_are_listed() {
    let mut dev = device();
    let found = dev
        .get_map_info(Ok(vec![
            Ok("map1".to_string()),
            Ok("map".to_string()),
            Ok("power".to_string()),
            Ok("map0".to_string()),
            Ok("mapping".to_string()),
        ]))
        .unwrap();
    assert_eq!(found, vec!["map1", "map0", "mapping"]);
}

#[test]
fn unreadable_entry_fails_the_names_of_mappings() {
    let mut dev = device();
    assert!(matches!(
        dev.get_map_info(missing()),
        Err(UioError::Io(e)) if e.kind() == std::io::ErrorKind::NotFound
    ));
    let r = dev.get_map_info(Ok(vec![
        Ok("map0".to_string()),
        Err(std::io::Error::from(std::io::ErrorKind::Interrupted)),
        Ok("map1".to_string()),
    ]));
    assert!(matches!(r, Err(UioError::Io(e)) if e.kind() == std::io::ErrorKind::Interrupted));
}

#[test]
fn mapping_five_is_listed_with_all_that_its_files_hold() {
    let mut dev = device();
    let found = dev
        .get_mapping_info(Ok(vec![mapping("map5", "0x40000000", "0x1000", "ctrl")]))
        .unwrap();
    assert_eq!(found, vec![info(5, 0x4000_0000, 0x1000, "ctrl")]);
}

#[test]
fn mappings_keep_the_order_of_the_directory() {
    let mut dev = device();
    let found = dev
        .get_mapping_info(Ok(vec![
            mapping("map1", "0xfe000000\n", "0x2000\n", "bar1\n"),
            mapping("map0", "0xfd000000\n", "0x0\n", "\n"),
            mapping("map12", "0x0\n", "0x10\n", "shared memory\n"),
        ]))
        .unwrap();
    assert_eq!(
        found,
        vec![
            info(1, 0xfe00_0000, 0x2000, "bar1"),
            info(0, 0xfd00_0000, 0, ""),
            info(12, 0, 0x10, "shared memory"),
        ]
    );
    assert_eq!(dev.get_mapping_info(Ok(vec![])).unwrap(), vec![]);
}

#[test]
fn listing_ends_before_the_mapping_whose_addr_is_missing() {
    let mut dev = device();
    let found = dev
        .get_mapping_info(Ok(vec![
            mapping("map0", "0x1000", "0x100", "a"),
            mapping("map1", "0x2000", "0x200", "b"),
            Ok(MapEntry {
                name: Some("map2".to_string()),
                is_dir: Ok(true),
                attributes: Some(MapAttributes {
                    addr: missing(),
                    name: text("c"),
                    size: text("0x300"),
                }),
            }),
            mapping("map3", "0x4000", "0x400", "d"),
        ]))
        .unwrap();
    assert_eq!(found, vec![info(0, 0x1000, 0x100, "a"), info(1, 0x2000, 0x200, "b")]);

    let found = dev
        .get_mapping_info(Ok(vec![
            Ok(MapEntry {
                name: Some("map0".to_string()),
                is_dir: Ok(true),
                attributes: Some(MapAttributes {
                    addr: missing(),
                    name: text("c"),
                    size: text("0x300"),
                }),
            }),
            mapping("map1", "0x2000", "0x200", "b"),
        ]))
        .unwrap();
    assert_eq!(found, vec![]);
}

fn cut_short_by(bad: Result<MapEntry, std::io::Error>) {
    let mut dev = device();
    let found = dev
        .get_mapping_info(Ok(vec![
            mapping("map0", "0x1000", "0x100", "a"),
            bad,
            mapping("map1", "0x2000", "0x200", "b"),
        ]))
        .unwrap();
    assert_eq!(found, vec![info(0, 0x1000, 0x100, "a")]);
}

#[test]
fn listing_ends_before_any_entry_that_describes_no_mapping() {
    cut_short_by(missing());
    cut_short_by(Ok(MapEntry { name: None, is_dir: Ok(true), attributes: None }));
    cut_short_by(Ok(MapEntry {
        name: Some("map7".to_string()),
        is_dir: Ok(true),
        attributes: None,
    }));
    cut_short_by(Ok(MapEntry {
        name: Some("map7".to_string()),
        is_dir: Ok(false),
        attributes: Some(MapAttributes { addr: text("0x1"), name: text("x"), size: text("0x1") }),
    }));
    cut_short_by(Ok(MapEntry {
        name: Some("map7".to_string()),
        is_dir: missing(),
        attributes: Some(MapAttributes { addr: text("0x1"), name: text("x"), size: text("0x1") }),
    }));
    cut_short_by(mapping("power", "0x1", "0x1", "x"));
    cut_short_by(mapping("map", "0x1", "0x1", "x"));
    cut_short_by(mapping("mapx", "0x1", "0x1", "x"));
    cut_short_by(mapping("map7", "1", "0x1", "x"));
    cut_short_by(mapping("map7", "0x1", "", "x"));
    cut_short_by(Ok(MapEntry {
        name: Some("map7".to_string()),
        is_dir: Ok(true),
        attributes: Some(MapAttributes { addr: text("0x1"), name: missing(), size: text("0x1") }),
    }));
    cut_short_by(Ok(MapEntry {
        name: Some("map7".to_string()),
        is_dir: Ok(true),
        attributes: Some(MapAttributes { addr: text("0x1"), name: text("x"), size: missing() }),
    }));
}

#[test]
fn unreadable_directory_of_mappings_is_an_io_error() {
    let mut dev = device();
    assert!(matches!(
        dev.get_mapping_info(missing()),
        Err(UioError::Io(e)) if e.kind() == std::io::ErrorKind::NotFound
    ));
}

#[test]
fn index_of_a_mapping_follows_the_word_map() {
    assert_eq!(map_index_of("map0"), Some(0));
    assert_eq!(map_index_of("map5"), Some(5));
    assert_eq!(map_index_of("map0012"), Some(12));
    assert_eq!(map_index_of("map+3"), Some(3));
    assert_eq!(map_index_of("mapmap3"), Some(3));
    assert_eq!(map_index_of(&format!("map{}", usize::MAX)), Some(usize::MAX));
    assert_eq!(map_index_of(&format!("map{}0", usize::MAX)), None);
    assert_eq!(map_index_of("map"), None);
    assert_eq!(map_index_of("mapmap"), None);
    assert_eq!(map_index_of("ma3"), None);
    assert_eq!(map_index_of("3"), None);
    assert_eq!(map_index_of("map-1"), None);
    assert_eq!(map_index_of("map3 "), None);
    assert_eq!(map_index_of("Map3"), None);
    assert_eq!(map_index_of(""), None);
}

#[test]
fn index_of_a_mapping_is_read_as_std_reads_it() {
    for name in ["map0", "map17", "mapmap4", "map+9", "map", "mapp1", "map1p", "map٣"] {
        let expected = if name.starts_with("map") {
            name.trim_start_matches("map").parse::<usize>().ok()
        } else {
            None
        };
        assert_eq!(map_index_of(name), expected, "{:?}", name);
    }
}

#[test]
fn name_extends_asks_for_more_than_the_prefix() {
    assert!(name_extends("resource0", "resource"));
    assert!(name_extends("resourceé", "resource"));
    assert!(!name_extends("resource", "resource"));
    assert!(!name_extends("resourc", "resource"));
    assert!(!name_extends("", "resource"));
    assert!(name_extends("map0", "map"));
    assert!(!name_extends("ma", "map"));
    assert!(name_extends("x", ""));
    assert!(!name_extends("", ""));
}
