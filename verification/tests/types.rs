use chrono::TimeZone;
use neotron_common_bios::bus::{FfiPeripheralKind, PeripheralKind};
use neotron_common_bios::{
    block_dev, EnumConversionFail, Error, FfiMemoryKind, FfiPowerMode, FfiString, MemoryKind,
    MemoryRegion, PowerMode, Ticks, Time, Timeout,
};

#[test]
fn timeout_in_milliseconds() {
    assert_eq!(Timeout::new_ms(0).get_ms(), 0);
    assert_eq!(Timeout::new_ms(1234).get_ms(), 1234);
    assert_eq!(Timeout::new_ms(u32::MAX).get_ms(), u32::MAX);
}

#[test]
fn timeout_in_seconds() {
    assert_eq!(Timeout::new_secs(0).get_ms(), 0);
    assert_eq!(Timeout::new_secs(3).get_ms(), 3000);
    assert_eq!(Timeout::new_secs(u16::MAX).get_ms(), 65_535_000);
    assert_eq!(Timeout::new_secs(2), Timeout::new_ms(2000));
    assert!(Timeout::new_secs(1) < Timeout::new_ms(1001));
}

#[test]
fn memory_kind_codec_round_trips() {
    let kinds = [
        MemoryKind::Ram,
        MemoryKind::Rom,
        MemoryKind::StackUsed,
        MemoryKind::StackFree,
        MemoryKind::Reserved,
    ];
    for (index, kind) in kinds.iter().enumerate() {
        assert_eq!(kind.as_u8() as usize, index);
        assert_eq!(kind.make_ffi_safe(), FfiMemoryKind(index as u8));
        assert_eq!(FfiMemoryKind::new(*kind).make_safe().ok(), Some(*kind));
    }
    for byte in 5..=255u8 {
        assert!(FfiMemoryKind(byte).make_safe().is_err());
    }
}

#[test]
fn power_mode_codec_round_trips() {
    let modes = [PowerMode::Off, PowerMode::Reset, PowerMode::Bootloader];
    for (index, mode) in modes.iter().enumerate() {
        assert_eq!(mode.as_u8() as usize, index);
        assert_eq!(mode.make_ffi_safe(), FfiPowerMode(index as u8));
        assert_eq!(FfiPowerMode::new(*mode).make_safe().ok(), Some(*mode));
    }
    for byte in 3..=255u8 {
        assert!(FfiPowerMode(byte).make_safe().is_err());
    }
}

#[test]
fn peripheral_kind_codec_round_trips() {
    let kinds = [
        PeripheralKind::Slot,
        PeripheralKind::SdCard,
        PeripheralKind::Reserved,
    ];
    for (index, kind) in kinds.iter().enumerate() {
        assert_eq!(kind.as_u8() as usize, index);
        assert_eq!(kind.make_ffi_safe(), FfiPeripheralKind(index as u8));
        assert_eq!(FfiPeripheralKind::new(*kind).make_safe().ok(), Some(*kind));
    }
    for byte in 3..=255u8 {
        assert!(FfiPeripheralKind(byte).make_safe().is_err());
    }
}

#[test]
fn conversion_failure_is_an_error_value() {
    let failed: Result<MemoryKind, EnumConversionFail> = FfiMemoryKind(200).make_safe();
    assert!(matches!(failed, Err(EnumConversionFail())));
}

#[test]
fn memory_kind_names() {
    assert_eq!(MemoryKind::Ram.to_string(), "RAM");
    assert_eq!(MemoryKind::Rom.to_string(), "ROM");
    assert_eq!(MemoryKind::StackUsed.to_string(), "StackUsed");
    assert_eq!(MemoryKind::StackFree.to_string(), "StackFree");
    assert_eq!(MemoryKind::Reserved.to_string(), "Reserved");
}

#[test]
fn memory_region_line() {
    let region = MemoryRegion {
        start: 0x2000_0400,
        length: 4096,
        kind: MemoryKind::Ram.make_ffi_safe(),
    };
    assert!(region.is_valid());
    assert_eq!(region.size_kib(), 4);
    assert_eq!(region.kind_or_reserved(), MemoryKind::Ram);
    assert_eq!(region.to_string(), "4 KiB RAM @ 0x20000400..0x20001400");
}

#[test]
fn memory_region_of_unknown_kind_counts_as_reserved() {
    let region = MemoryRegion {
        start: 0x1000,
        length: 1023,
        kind: FfiMemoryKind(77),
    };
    assert_eq!(region.size_kib(), 0);
    assert_eq!(region.kind_or_reserved(), MemoryKind::Reserved);
    assert_eq!(region.to_string(), "0 KiB Reserved @ 0x1000..0x13ff");
}

#[test]
fn memory_region_line_of_a_large_and_of_an_empty_region() {
    let region = MemoryRegion {
        start: 0x1000_0000,
        length: 0x0002_0000,
        kind: MemoryKind::Rom.make_ffi_safe(),
    };
    assert_eq!(region.to_string(), "128 KiB ROM @ 0x10000000..0x10020000");
    assert_eq!(
        region.to_string(),
        format!(
            "{} KiB {} @ {:#x}..{:#x}",
            region.length / 1024,
            "ROM",
            region.start,
            region.start + region.length
        )
    );
    let empty = MemoryRegion {
        start: 0,
        length: 0,
        kind: MemoryKind::StackFree.make_ffi_safe(),
    };
    assert_eq!(empty.to_string(), "0 KiB StackFree @ 0x0..0x0");
}

#[test]
fn memory_region_must_end_in_the_address_space() {
    let region = MemoryRegion {
        start: usize::MAX - 10,
        length: 11,
        kind: FfiMemoryKind(0),
    };
    assert!(!region.is_valid());
    let region = MemoryRegion {
        start: usize::MAX - 10,
        length: 10,
        kind: FfiMemoryKind(0),
    };
    assert!(region.is_valid());
}

#[test]
fn time_counts_from_the_year_2000() {
    let epoch = Time { secs: 0, nsecs: 0 };
    assert_eq!(epoch.unix_seconds(), 946_684_800);
    assert!(epoch.is_valid());
    assert_eq!(epoch.to_string(), "2000-01-01 00:00:00 UTC");
    let later = Time {
        secs: 86_400 + 3_661,
        nsecs: 0,
    };
    assert_eq!(later.to_string(), "2000-01-02 01:01:01 UTC");
    let last = Time {
        secs: u32::MAX,
        nsecs: 0,
    };
    assert_eq!(last.unix_seconds(), 5_241_652_095);
    assert_eq!(last.to_string(), "2136-02-07 06:28:15 UTC");
}

#[test]
fn time_agrees_with_chrono() {
    let epoch = chrono::Utc
        .with_ymd_and_hms(2000, 1, 1, 0, 0, 0)
        .unwrap()
        .timestamp();
    assert_eq!(Time { secs: 0, nsecs: 0 }.unix_seconds(), epoch);
    let time = Time {
        secs: 123_456_789,
        nsecs: 500_000_000,
    };
    let expected = chrono::Utc
        .timestamp_opt(epoch + 123_456_789, 500_000_000)
        .unwrap();
    assert_eq!(time.to_string(), format!("{}", expected));
}

#[test]
fn time_validity_follows_the_nanoseconds() {
    assert!(Time { secs: 10, nsecs: 999_999_999 }.is_valid());
    assert!(!Time { secs: 10, nsecs: 1_000_000_000 }.is_valid());
    assert!(Time { secs: 59, nsecs: 1_000_000_000 }.is_valid());
    assert!(Time { secs: 59, nsecs: 1_999_999_999 }.is_valid());
    assert!(!Time { secs: 59, nsecs: 2_000_000_000 }.is_valid());
    assert!(!Time { secs: 60, nsecs: 1_500_000_000 }.is_valid());
    let leap = Time {
        secs: 59,
        nsecs: 1_500_000_000,
    };
    assert_eq!(leap.to_string(), "2000-01-01 00:00:60.500 UTC");
}

#[test]
fn ticks_hold_a_count() {
    let ticks = Ticks(1_000);
    assert_eq!(ticks.clone().0, 1_000);
}

#[test]
fn errors_compare_by_kind_and_code() {
    assert_eq!(Error::InvalidDevice, Error::InvalidDevice);
    assert_ne!(Error::InvalidDevice, Error::Unimplemented);
    assert_eq!(Error::DeviceError(7), Error::DeviceError(7).clone());
    assert_ne!(Error::DeviceError(7), Error::DeviceError(8));
    assert_ne!(Error::DeviceError(7), Error::UnsupportedConfiguration(7));
    assert_ne!(Error::NoMediaFound, Error::BlockOutOfBounds);
}

#[test]
fn device_info_clone_keeps_the_name() {
    let info = block_dev::DeviceInfo {
        name: FfiString::new("SdCard0"),
        device_type: block_dev::DeviceType::SecureDigitalCard,
        block_size: 512,
        num_blocks: 1 << 20,
        ejectable: false,
        removable: true,
        media_present: true,
        read_only: false,
    };
    let copy = info.clone();
    assert_eq!(copy.name.as_str(), "SdCard0");
    assert_eq!(copy, info);
    assert!(block_dev::BlockIdx(3) < block_dev::BlockIdx(4));
}
