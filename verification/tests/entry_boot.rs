use smbios::boot::{BootStatus, SystemBootInformation};
use smbios::entry::EntryPoint;
use smbios::error::SmbiosError;
use smbios::SmbiosStructure;

fn checksum_is_zero(max_size: u32, address: u64) {
    let e = EntryPoint::new(max_size, address);
    let mut out = vec![];
    e.serialize(&mut out);
    assert_eq!(out.len(), 24);
    let mut sum: u8 = 0;
    for b in &out {
        sum = sum.wrapping_add(*b);
    }
    assert_eq!(sum, 0);
}

#[test]
fn entry_point_checksum_zero() {
    checksum_is_zero(0, 0);
    checksum_is_zero(u32::MAX, u64::MAX);
    checksum_is_zero(0x10000, 0x8000_0000);
    checksum_is_zero(0x1234_5678, 0xdead_beef_0011_2233);
}

#[test]
fn entry_point_layout() {
    let e = EntryPoint::new(0x10000, 0x8000_0000);
    let mut out = vec![];
    e.serialize(&mut out);
    assert_eq!(&out[0..5], b"_SM3_");
    assert_eq!(out[6], 0x18);
    assert_eq!(&out[7..12], &[3, 7, 0, 1, 0]);
    assert_eq!(&out[12..16], &[0, 0, 1, 0]);
    assert_eq!(&out[16..24], &[0, 0, 0, 0x80, 0, 0, 0, 0]);
}

#[test]
fn entry_point_serialize_repeatable() {
    let e = EntryPoint::new(0x20000, 42);
    let mut a = vec![];
    e.serialize(&mut a);
    let mut b = vec![];
    e.serialize(&mut b);
    assert_eq!(a, b);
}

#[test]
fn boot_status_image_payload_verbatim() {
    let payload = [1u8, 2, 3];
    let s = SystemBootInformation::new(3, BootStatus::PreviouslyRequestedImage(&payload)).unwrap();
    let mut out = vec![];
    s.serialize(&mut out);
    let expected = [32u8, 14, 3, 0, 0, 0, 0, 0, 0, 0, 7, 1, 2, 3, 0, 0];
    assert_eq!(expected.as_slice(), out);
}

#[test]
fn boot_status_parameterless_codes() {
    let cases: Vec<(BootStatus, u8)> = vec![
        (BootStatus::NoErrorsDetected, 0),
        (BootStatus::NoBootableMedia, 1),
        (BootStatus::NormalOperatingSystemFailedToLoad, 2),
        (BootStatus::FirmwareDetectedHardwareFailure, 3),
        (BootStatus::OperatingSystemDetectedHardwareFailure, 4),
        (BootStatus::UserRequestedBoot, 5),
        (BootStatus::SystemSecurityViolation, 6),
        (BootStatus::SystemWatchdogTimer, 8),
    ];
    for (status, code) in cases {
        let s = SystemBootInformation::new(2, status).unwrap();
        let mut out = vec![];
        s.serialize(&mut out);
        assert_eq!(out.len(), 13);
        assert_eq!(out[1], 11);
        assert_eq!(out[10], code);
        assert_eq!(&out[11..13], &[0, 0]);
    }
}

#[test]
fn boot_status_vendor_specific() {
    let payload = [0xaau8];
    let s = SystemBootInformation::new(1, BootStatus::VendorSpecific(128, &payload)).unwrap();
    let mut out = vec![];
    s.serialize(&mut out);
    assert_eq!([32u8, 12, 1, 0, 0, 0, 0, 0, 0, 0, 128, 0xaa, 0, 0].as_slice(), out);

    let s = SystemBootInformation::new(1, BootStatus::VendorSpecific(191, &payload)).unwrap();
    let mut out = vec![];
    s.serialize(&mut out);
    assert_eq!(out[10], 191);
}

#[test]
fn boot_status_product_specific() {
    let payload = [7u8, 8];
    let s = SystemBootInformation::new(9, BootStatus::ProductSpecific(192, &payload)).unwrap();
    let mut out = vec![];
    s.serialize(&mut out);
    assert_eq!([32u8, 13, 9, 0, 0, 0, 0, 0, 0, 0, 192, 7, 8, 0, 0].as_slice(), out);
}

#[test]
fn boot_status_vendor_code_100_faults() {
    let payload = [0u8];
    let r = SystemBootInformation::new(1, BootStatus::VendorSpecific(100, &payload));
    assert!(matches!(r, Err(SmbiosError::InvalidStatusCode)));
}

#[test]
fn boot_status_product_code_50_faults() {
    let payload = [0u8];
    let r = SystemBootInformation::new(1, BootStatus::ProductSpecific(50, &payload));
    assert!(matches!(r, Err(SmbiosError::InvalidStatusCode)));
}

#[test]
fn boot_status_vendor_code_192_faults() {
    let payload = [0u8];
    let r = SystemBootInformation::new(1, BootStatus::VendorSpecific(192, &payload));
    assert!(matches!(r, Err(SmbiosError::InvalidStatusCode)));
}

#[test]
fn boot_status_payload_too_long_faults() {
    let payload = [0u8; 245];
    let r = SystemBootInformation::new(1, BootStatus::PreviouslyRequestedImage(&payload));
    assert!(matches!(r, Err(SmbiosError::PayloadTooLong)));
    let boundary = [0u8; 244];
    let s = SystemBootInformation::new(1, BootStatus::PreviouslyRequestedImage(&boundary)).unwrap();
    let mut out = vec![];
    s.serialize(&mut out);
    assert_eq!(out.len(), 13 + 244);
    assert_eq!(out[1], 255);
}
