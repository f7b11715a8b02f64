use smbios::bios::BiosInformation;
use smbios::cache::CacheInformation;
use smbios::end::EndOfTable;
use smbios::error::SmbiosError;
use smbios::memory::{MemoryArrayMappedAddress, MemoryDevice, MemoryDeviceMappedAddress,
    PhysicalMemoryArray};
use smbios::oem::OemStrings;
use smbios::processor::{ProcessorInformation, RiscvProcessorAdditionalInformation};
use smbios::slots::SystemSlots;
use smbios::system::SystemInformation;
use smbios::tpm::TpmDevice;
use smbios::types::{BiosCharacteristics, BiosCharacteristicsEx1, BiosCharacteristicsEx2,
    CacheConfiguration, MemoryType, ProcessorFamily2, SlotType, WakeupType, Xlen};
use smbios::SmbiosStructure;

#[test]
fn string_indices_count_from_one() {
    let mut o = OemStrings::new(0);
    assert_eq!(o.add_string("a").unwrap(), 1);
    assert_eq!(o.add_string("b").unwrap(), 2);
    assert_eq!(o.add_string("c").unwrap(), 3);
}

#[test]
fn repeated_setter_appends_again() {
    let mut b = BiosInformation::new(0);
    assert_eq!(b.set_vendor("a").unwrap(), 1);
    assert_eq!(b.set_bios_version("b").unwrap(), 2);
    assert_eq!(b.set_vendor("c").unwrap(), 3);
    let mut out = vec![];
    b.serialize(&mut out);
    // The vendor field holds the latest index; all three strings remain.
    assert_eq!(out[4], 3);
    assert_eq!(out[5], 2);
    assert_eq!(&out[20..], &[b'a', 0, b'b', 0, b'c', 0, 0]);
}

#[test]
fn string_table_overflow_faults() {
    let mut o = OemStrings::new(0);
    for k in 1..=255u32 {
        assert_eq!(o.add_string("x").unwrap() as u32, k);
    }
    assert!(matches!(o.add_string("x"), Err(SmbiosError::StringTableFull)));
}

#[test]
fn empty_string_table_is_two_zero_bytes() {
    let b = BiosInformation::new(1);
    let mut out = vec![];
    b.serialize(&mut out);
    assert_eq!(out.len(), 0x14 + 2);
    assert_eq!(&out[0x14..], &[0, 0]);
}

#[test]
fn empty_oem_strings_single_terminator() {
    let o = OemStrings::new(9);
    let mut out = vec![];
    o.serialize(&mut out);
    assert_eq!([11u8, 5, 9, 0, 0, 0].as_slice(), out);
}

fn record_size(out: &[u8], type_id: u8, length: u8) {
    assert_eq!(out[0], type_id);
    assert_eq!(out[1], length);
    assert_eq!(out.len(), length as usize + 2);
}

#[test]
fn fixed_record_sizes_match_spec_constants() {
    let mut out = vec![];
    BiosInformation::new(7).serialize(&mut out);
    record_size(&out, 0, 0x14);
    let mut out = vec![];
    SystemInformation::new(7).serialize(&mut out);
    record_size(&out, 1, 0x1b);
    let mut out = vec![];
    ProcessorInformation::new(7).serialize(&mut out);
    record_size(&out, 4, 0x32);
    let mut out = vec![];
    CacheInformation::new(7).serialize(&mut out);
    record_size(&out, 7, 0x1b);
    let mut out = vec![];
    SystemSlots::new(7).serialize(&mut out);
    record_size(&out, 9, 0x13);
    let mut out = vec![];
    PhysicalMemoryArray::new(7).serialize(&mut out);
    record_size(&out, 16, 0x17);
    let mut out = vec![];
    MemoryDevice::new(7).serialize(&mut out);
    record_size(&out, 17, 0x64);
    let mut out = vec![];
    MemoryArrayMappedAddress::new(7).serialize(&mut out);
    record_size(&out, 19, 0x1f);
    let mut out = vec![];
    MemoryDeviceMappedAddress::new(7).serialize(&mut out);
    record_size(&out, 20, 0x23);
    let mut out = vec![];
    TpmDevice::new(7).serialize(&mut out);
    record_size(&out, 43, 0x1f);
    let mut out = vec![];
    RiscvProcessorAdditionalInformation::new(7).serialize(&mut out);
    record_size(&out, 44, 0x74);
    let mut out = vec![];
    EndOfTable::new(7).serialize(&mut out);
    record_size(&out, 127, 4);
}

#[test]
fn get_handle_returns_constructor_handle() {
    assert_eq!(BiosInformation::new(257).get_handle(), 257);
    assert_eq!(MemoryDevice::new(0xabcd).get_handle(), 0xabcd);
}

#[test]
fn riscv_hart_id_serializes_little_endian() {
    let mut r = RiscvProcessorAdditionalInformation::new(0);
    r.set_hart_id(0x0102_0304_0506_0708_090a_0b0c_0d0e_0f10u128);
    let mut out = vec![];
    r.serialize(&mut out);
    assert_eq!(
        &out[9..25],
        &[0x10, 0x0f, 0x0e, 0x0d, 0x0c, 0x0b, 0x0a, 0x09, 0x08, 0x07, 0x06, 0x05, 0x04, 0x03,
            0x02, 0x01]
    );
}

#[test]
fn riscv_xlen_defaults_to_64() {
    let r = RiscvProcessorAdditionalInformation::new(0);
    let mut out = vec![];
    r.serialize(&mut out);
    // xlen, mxlen, reserved, sxlen, uxlen close the record.
    assert_eq!(&out[111..116], &[2, 2, 0, 2, 2]);
}

#[test]
fn cache_configuration_bit_layout() {
    let mut cc = CacheConfiguration::new();
    cc.set_level(1);
    cc.set_enabled(true);
    cc.set_op_mode(1);
    assert_eq!(cc.bits(), 0x181);
    cc.set_socketed(true);
    cc.set_location(2);
    assert_eq!(cc.bits(), 0x1c9);
    cc.set_enabled(false);
    assert_eq!(cc.bits(), 0x149);
    assert_eq!(cc.level(), 1);
    assert_eq!(cc.op_mode(), 1);
    assert_eq!(cc.location(), 2);
    assert!(cc.socketed());
    assert!(!cc.enabled());

    let mut c = CacheInformation::new(0);
    c.set_cache_configuration(cc);
    let mut out = vec![];
    c.serialize(&mut out);
    assert_eq!(&out[5..7], &[0x49, 0x01]);
}

#[test]
fn tpm_vendor_id_bytes_verbatim() {
    let mut t = TpmDevice::new(0);
    t.set_vendor_id([b'A', b'B', b'C', b'D']);
    let mut out = vec![];
    t.serialize(&mut out);
    assert_eq!(&out[4..8], b"ABCD");
}

#[test]
fn system_uuid_bytes_verbatim() {
    let mut s = SystemInformation::new(0);
    let uuid = [1u8, 2, 3, 4, 5, 6, 7, 8, 9, 10, 11, 12, 13, 14, 15, 16];
    s.set_uuid(uuid);
    let mut out = vec![];
    s.serialize(&mut out);
    assert_eq!(&out[8..24], &uuid);
}

#[test]
fn bios_characteristics_flags() {
    assert_eq!(BiosCharacteristics::ISA_SUPPORTED, 0x10);
    assert_eq!(BiosCharacteristics::PCI_SUPPORTED, 0x80);
    assert_eq!(BiosCharacteristicsEx1::ACPI_SUPPORTED, 1);
    assert_eq!(BiosCharacteristicsEx2::UEFI_SUPPORTED, 8);
    let c = BiosCharacteristics::new(
        BiosCharacteristics::ISA_SUPPORTED | BiosCharacteristics::PCI_SUPPORTED,
    );
    let mut b = BiosInformation::new(0);
    b.set_bios_characteristics(c.bits);
    let mut out = vec![];
    b.serialize(&mut out);
    assert_eq!(out[10], 0x90);
    assert_eq!(&out[11..18], &[0, 0, 0, 0, 0, 0, 0]);
}

#[test]
fn enum_codes_match_spec_values() {
    assert_eq!(WakeupType::AcPowerRestored.code(), 8);
    assert_eq!(ProcessorFamily2::RiscvRv64.code(), 0x201);
    assert_eq!(SlotType::PcieGen5x16.code(), 0xc4);
    assert_eq!(MemoryType::Hbm3.code(), 0x24);
    assert_eq!(Xlen::Xlen64.code(), 2);
}
