use uio::sysfs::{
    attribute_path, class_dir, dev_path, device_dir, map_attribute_path, maps_dir, resource_path,
    Attribute, MapAttribute,
};

#[test]
fn control_file_is_under_dev() {
    assert_eq!(dev_path(0), "/dev/uio0");
    assert_eq!(dev_path(7), "/dev/uio7");
    assert_eq!(dev_path(10), "/dev/uio10");
    assert_eq!(dev_path(usize::MAX), format!("/dev/uio{}", usize::MAX));
}

#[test]
fn attributes_are_under_the_class_directory() {
    assert_eq!(class_dir(3), "/sys/class/uio/uio3");
    assert_eq!(attribute_path(0, Attribute::Name), "/sys/class/uio/uio0/name");
    assert_eq!(attribute_path(0, Attribute::Version), "/sys/class/uio/uio0/version");
    assert_eq!(attribute_path(21, Attribute::Event), "/sys/class/uio/uio21/event");
}

#[test]
fn mappings_are_under_maps() {
    assert_eq!(maps_dir(0), "/sys/class/uio/uio0/maps/");
    assert_eq!(
        map_attribute_path(0, 5, MapAttribute::Addr),
        "/sys/class/uio/uio0/maps/map5/addr"
    );
    assert_eq!(
        map_attribute_path(1, 0, MapAttribute::Size),
        "/sys/class/uio/uio1/maps/map0/size"
    );
    assert_eq!(
        map_attribute_path(12, 34, MapAttribute::Name),
        "/sys/class/uio/uio12/maps/map34/name"
    );
}

#[test]
fn resources_are_under_device() {
    assert_eq!(device_dir(0), "/sys/class/uio/uio0/device/");
    assert_eq!(resource_path(0, 1), "/sys/class/uio/uio0/device/resource1");
    assert_eq!(resource_path(4, 10), "/sys/class/uio/uio4/device/resource10");
}

#[test]
fn paths_name_what_the_listings_accept() {
    for index in [0usize, 1, 9, 10, 255, usize::MAX] {
        let path = map_attribute_path(0, index, MapAttribute::Size);
        let dir = path
            .strip_prefix(maps_dir(0).as_str())
            .and_then(|rest| rest.strip_suffix("/size"))
            .unwrap();
        assert_eq!(uio::listing::map_index_of(dir), Some(index));

        let path = resource_path(0, index);
        let file = path.strip_prefix(device_dir(0).as_str()).unwrap();
        assert!(uio::listing::name_extends(file, "resource"));
    }
}
