use smbios::bios::BiosInformation;
use smbios::memory::PhysicalMemoryArray;
use smbios::oem::OemStrings;
use smbios::processor::ProcessorInformation;
use smbios::system::SystemInformation;
use smbios::types::{ArrayLocation, ArrayUse, ProcessorFamily, ProcessorFamily2, ProcessorType,
    WakeupType};
use smbios::units::tb;
use smbios::SmbiosStructure;

#[test]
fn test_type0() {
    let expected = [
        0u8, 0x14, 0x1, 0x1, 0x1, 0x2, 0, 0, 0x3, 0, 0, 0, 0, 0, 0, 0, 0, 0, 0, 0, b'S', b'y',
        b's', b't', b'e', b'm', b' ', b'B', b'I', b'O', b'S', b' ', b'V', b'e', b'n', b'd', b'o',
        b'r', 0, b'4', b'.', b'0', b'4', 0, b'0', b'0', b'/', b'0', b'0', b'/', b'0', b'0', b'0',
        b'0', 0, 0,
    ];

    let mut output = vec![];
    let mut b = BiosInformation::new(257);
    b.set_vendor("System BIOS Vendor").unwrap();
    b.set_bios_version("4.04").unwrap();
    b.set_bios_release_date("00/00/0000").unwrap();

    b.serialize(&mut output);
    assert_eq!(expected.as_slice(), &output);
}

#[test]
fn test_type1() {
    let expected = [
        1u8, 0x1b, 0xff, 0x0, 0x1, 0x2, 0x3, 0x4, 0, 0, 0, 0, 0, 0, 0, 0, 0, 0, 0, 0, 0, 0, 0, 0,
        8, 0x5, 0x6, b'O', b'E', b'M', b'1', 0, b'R', b'i', b'v', b'o', b's', b' ', b's', b'y',
        b's', b't', b'e', b'm', 0, b'G', b'e', b'n', b'0', 0, b'0', b'1', b'2', b'3', b'4', b'5',
        0, b'S', b'K', b'U', b'1', 0, b'F', b'a', b'm', b'i', b'l', b'y', 0, 0,
    ];

    let mut output = vec![];
    let mut b = SystemInformation::new(255);
    b.set_manufacturer("OEM1").unwrap();
    b.set_product_name("Rivos system").unwrap();
    b.set_version("Gen0").unwrap();
    b.set_serial_number("012345").unwrap();
    b.set_sku_number("SKU1").unwrap();
    b.set_family("Family").unwrap();
    b.set_wakeup_type(WakeupType::AcPowerRestored);

    b.serialize(&mut output);
    assert_eq!(expected.as_slice(), output);
}

#[test]
fn test_type4() {
    let expected = [
        4u8, 0x32, 5, 0, 1, 3, 0xfe, 2, 0xef, 0xcd, 0xab, 0x90, 0x78, 0x56, 0x34, 0x12, 3, 0, 1,
        0, 0, 0, 0, 0, 0, 2, 0, 0, 0, 0, 0, 0, 0, 0, 0, 0, 0, 0, 0, 0, 1, 2, 0, 0, 0, 0, 0, 0, 0,
        0, b'S', b'o', b'c', b'k', b'e', b't', 0, b'M', b'a', b'n', b'u', b'f', 0, b'V', b'e',
        b'r', b's', b'i', b'o', b'n', 0, 0,
    ];

    let mut output = vec![];
    let mut p = ProcessorInformation::new(5);
    p.set_socket_designation("Socket").unwrap();
    p.set_processor_type(ProcessorType::CentralProcessor);
    p.set_processor_manufacturer("Manuf").unwrap();
    p.set_processor_family(ProcessorFamily::ObtainFrom2);
    p.set_processor_id(0x1234_5678_90ab_cdef);
    p.set_processor_version("Version").unwrap();
    p.set_external_clock(1);
    p.set_processor_family2(ProcessorFamily2::RiscvRv64);

    p.serialize(&mut output);
    assert_eq!(expected.as_slice(), output);
}

#[test]
fn test_type11() {
    let expected = [
        11, 5, 1, 0, 2, b'M', b'y', b' ', b'O', b'E', b'M', b' ', b's', b't', b'r', b'i', b'n',
        b'g', 0, b'f', b'o', b'o', 0, 0,
    ];

    let mut output = vec![];
    let mut o = OemStrings::new(1);
    o.add_string("My OEM string").unwrap();
    o.add_string("foo").unwrap();
    o.serialize(&mut output);

    assert_eq!(expected.as_slice(), output);
}

#[test]
fn test_type16() {
    let expected = [
        16u8, 0x17, 10, 0, 3, 3, 2, 0, 0, 0, 128, 0, 0, 16, 0, 0, 0, 0, 0, 0, 3, 0, 0, 0, 0,
    ];

    let mut output = vec![];
    let mut p = PhysicalMemoryArray::new(10);
    p.set_location(ArrayLocation::SystemBoard);
    p.set_array_use(ArrayUse::SystemMemory);
    p.set_number_of_memory_devices(16);
    p.set_memory_capacity(tb(3));
    p.serialize(&mut output);

    assert_eq!(expected.as_slice(), output);
}
