use uefi::disk;
use uefi::error::{Error, Status};
use uefi::pxe::{PxeBaseCodeIcmpErrorUnion, PxeBaseCodeIpFilterFlags};
use uefi::usb::{Capabilities, Speed, Usb2HostController};

#[test]
fn test_error_accessors() {
    let error = Error::new(Status(5), 42u32);
    assert_eq!(error.status(), Status(5));
    assert_eq!(*error.data(), 42);
    let (status, data) = error.split();
    assert_eq!(status, Status(5));
    assert_eq!(data, 42);

    let unit_error: Error<()> = Error::new(Status(Status::SUCCESS), ());
    assert_eq!(unit_error.status().0, 0);
}

#[test]
fn test_capabilities_from_raw() {
    let caps = Capabilities::from_raw(Speed(Speed::HIGH), 4, 1);
    assert_eq!(caps.max_speed, Speed(2));
    assert_eq!(caps.port_count, 4);
    assert!(caps.is_64_bit_capable);

    let caps = Capabilities::from_raw(Speed(Speed::FULL), 2, 0);
    assert!(!caps.is_64_bit_capable);

    // Any non-zero byte sets the flag.
    let caps = Capabilities::from_raw(Speed(Speed::SUPER), 1, 0xff);
    assert!(caps.is_64_bit_capable);
}

#[test]
fn test_host_controller_revisions() {
    let controller = Usb2HostController::new(2, 0);
    assert_eq!(controller.major_revision(), 2);
    assert_eq!(controller.minor_revision(), 0);
}

#[test]
fn test_ip_filter_flags() {
    let empty = PxeBaseCodeIpFilterFlags::empty();
    assert_eq!(empty.bits(), 0);

    let station = PxeBaseCodeIpFilterFlags::from_bits_truncate(PxeBaseCodeIpFilterFlags::STATION_IP);
    let broadcast = PxeBaseCodeIpFilterFlags::from_bits_truncate(PxeBaseCodeIpFilterFlags::BROADCAST);
    let both = station.union(broadcast);
    assert_eq!(both.bits(), 0x03);
    assert!(both.contains(station));
    assert!(both.contains(broadcast));
    assert!(!station.contains(broadcast));

    // Bits outside the known flags are dropped.
    let all = PxeBaseCodeIpFilterFlags::from_bits_truncate(0xff);
    assert_eq!(all.bits(), 0x0f);
}

#[test]
fn test_icmp_error_union_readings() {
    let word = PxeBaseCodeIcmpErrorUnion { raw: 0x0002_0001 };
    assert_eq!(word.mtu(), 0x0002_0001);
    assert_eq!(word.pointer(), 0x0002_0001);
    let echo = word.echo();
    assert_eq!(echo.identifier, 1);
    assert_eq!(echo.sequence, 2);
}

#[test]
fn test_partition_byte_range() {
    // The layout used by the 10 MiB MBR test disk: one partition from
    // sector 1 through the disk's last sector.
    let (start, end) = disk::get_partition_byte_range(1, 20480 - 1);
    assert_eq!(start, 512);
    assert_eq!(end, 10 * 1024 * 1024);
}
