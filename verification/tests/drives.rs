use rusty_wit::drives::{list, refresh, Disk, Drive};
use rusty_wit::error::Error;

fn disk(name: &str, mount_point: &str, removable: bool) -> Disk {
    Disk {
        name: String::from(name),
        total_space: 32_000_000_000,
        available_space: 8_000_000_000,
        mount_point: String::from(mount_point),
        removable,
    }
}

fn drive(name: &str, mount_point: &str) -> Drive {
    Drive {
        name: String::from(name),
        total_space: 32_000_000_000,
        available_space: 8_000_000_000,
        mount_point: String::from(mount_point),
    }
}

#[test]
fn only_removable_mounted_disks_are_listed() {
    let disks = vec![
        disk("system", "/", false),
        disk("usb", "/mnt/usb", true),
        disk("unmounted", "", true),
        disk("card", "/mnt/card", true),
    ];
    let drives = list(&disks);
    assert_eq!(drives, vec![drive("usb", "/mnt/usb"), drive("card", "/mnt/card")]);
    for d in drives {
        assert!(!d.mount_point.is_empty());
        assert!(disks.iter().any(|k| k.removable && k.mount_point == d.mount_point));
    }
}

#[test]
fn no_disks_no_drives() {
    assert_eq!(list(&vec![]), vec![]);
    assert_eq!(list(&vec![disk("system", "/", false)]), vec![]);
}

#[test]
fn listing_copies_the_sizes() {
    let mut d = disk("usb", "/mnt/usb", true);
    d.total_space = 5;
    d.available_space = 3;
    let drives = list(&vec![d]);
    assert_eq!(drives.len(), 1);
    assert_eq!(drives[0].total_space, 5);
    assert_eq!(drives[0].available_space, 3);
    assert_eq!(drives[0].name, "usb");
}

#[test]
fn refresh_finds_the_drive_again() {
    let mut changed = disk("usb", "/mnt/usb", true);
    changed.available_space = 1;
    let disks = vec![disk("system", "/", false), disk("card", "/mnt/card", true), changed];
    let found = refresh(&disks, "/mnt/usb").unwrap();
    assert_eq!(found.name, "usb");
    assert_eq!(found.available_space, 1);
    assert_eq!(found.mount_point, "/mnt/usb");
}

#[test]
fn refresh_takes_the_first_of_two() {
    let disks = vec![disk("one", "/mnt/usb", true), disk("two", "/mnt/usb", true)];
    assert_eq!(refresh(&disks, "/mnt/usb"), Ok(drive("one", "/mnt/usb")));
}

#[test]
fn refresh_of_an_unplugged_drive_is_not_found() {
    let disks = vec![disk("system", "/", false), disk("card", "/mnt/card", true)];
    assert_eq!(refresh(&disks, "/mnt/usb"), Err(Error::VolumeNotFound));
    assert_eq!(refresh(&disks, "/"), Err(Error::VolumeNotFound));
    assert_eq!(refresh(&vec![], "/mnt/usb"), Err(Error::VolumeNotFound));
    assert_eq!(refresh(&vec![disk("x", "", true)], ""), Err(Error::VolumeNotFound));
}
