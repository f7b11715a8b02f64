use smbios::error::SmbiosError;
use smbios::memory::{MemoryArrayMappedAddress, MemoryDevice, MemoryDeviceMappedAddress,
    PhysicalMemoryArray};
use smbios::units::{gb, mb, tb, to_mb};
use smbios::SmbiosStructure;

#[test]
fn units_exact_values() {
    assert_eq!(mb(1), 1 << 20);
    assert_eq!(gb(1), 1 << 30);
    assert_eq!(tb(1), 1 << 40);
    assert_eq!(to_mb(3 << 20), 3);
    assert_eq!(tb(2), 0x200_0000_0000);
    assert_eq!(gb(32) - mb(1), 0x7_fff0_0000);
}

#[test]
fn capacity_at_two_tb_uses_extended_path() {
    let mut p = PhysicalMemoryArray::new(0);
    p.set_memory_capacity(tb(2));
    let mut out = vec![];
    p.serialize(&mut out);
    // Narrow field holds the sentinel, extended field the byte count.
    assert_eq!(&out[7..11], &[0, 0, 0, 0x80]);
    assert_eq!(&out[15..23], &[0, 0, 0, 0, 0, 0x02, 0, 0]);
}

#[test]
fn capacity_below_two_tb_uses_kilobyte_path() {
    let mut p = PhysicalMemoryArray::new(0);
    p.set_memory_capacity(tb(2) - 1);
    let mut out = vec![];
    p.serialize(&mut out);
    // (2 TiB - 1) / 1024 kilobytes, extended field zero.
    assert_eq!(&out[7..11], &[0xff, 0xff, 0xff, 0x7f]);
    assert_eq!(&out[15..23], &[0, 0, 0, 0, 0, 0, 0, 0]);
}

#[test]
fn memory_size_at_threshold_uses_extended_path() {
    let mut d = MemoryDevice::new(0);
    d.set_memory_size(Some(gb(32) - mb(1))).unwrap();
    let mut out = vec![];
    d.serialize(&mut out);
    // Narrow field holds the sentinel, extended field the mebibyte count.
    assert_eq!(&out[12..14], &[0xff, 0x7f]);
    assert_eq!(&out[28..32], &[0xff, 0x7f, 0, 0]);
}

#[test]
fn memory_size_below_threshold_uses_narrow_field() {
    let mut d = MemoryDevice::new(0);
    d.set_memory_size(Some(gb(32) - mb(2))).unwrap();
    let mut out = vec![];
    d.serialize(&mut out);
    assert_eq!(&out[12..14], &[0xfe, 0x7f]);
    assert_eq!(&out[28..32], &[0, 0, 0, 0]);
}

#[test]
fn memory_size_absent_encodes_all_ones() {
    let mut d = MemoryDevice::new(0);
    d.set_memory_size(None).unwrap();
    let mut out = vec![];
    d.serialize(&mut out);
    assert_eq!(&out[12..14], &[0xff, 0xff]);
}

#[test]
fn memory_size_too_large_faults() {
    let mut d = MemoryDevice::new(0);
    let r = d.set_memory_size(Some(1u64 << 52));
    assert!(matches!(r, Err(SmbiosError::SizeOutOfRange)));
    // Nothing was changed by the refused call.
    let mut out = vec![];
    d.serialize(&mut out);
    assert_eq!(&out[12..14], &[0, 0]);
    assert_eq!(&out[28..32], &[0, 0, 0, 0]);
}

#[test]
fn array_mapped_address_always_extended() {
    let mut m = MemoryArrayMappedAddress::new(4);
    m.set_address_range(0x1000, 0x2000);
    let mut out = vec![];
    m.serialize(&mut out);
    assert_eq!(&out[4..8], &[0xff, 0xff, 0xff, 0xff]);
    assert_eq!(&out[8..12], &[0xff, 0xff, 0xff, 0xff]);
    assert_eq!(&out[15..23], &[0, 0x10, 0, 0, 0, 0, 0, 0]);
    assert_eq!(&out[23..31], &[0, 0x20, 0, 0, 0, 0, 0, 0]);
}

#[test]
fn device_mapped_address_always_extended() {
    let mut m = MemoryDeviceMappedAddress::new(4);
    m.set_address_range(0x3000, 0x4000);
    let mut out = vec![];
    m.serialize(&mut out);
    assert_eq!(&out[4..8], &[0xff, 0xff, 0xff, 0xff]);
    assert_eq!(&out[8..12], &[0xff, 0xff, 0xff, 0xff]);
    assert_eq!(&out[19..27], &[0, 0x30, 0, 0, 0, 0, 0, 0]);
    assert_eq!(&out[27..35], &[0, 0x40, 0, 0, 0, 0, 0, 0]);
}
