//! Memory description structures: the physical memory array (type 16),
//! the memory device (type 17), and the two mapped-address structures
//! (types 19 and 20). The scaled numeric encodings of the format — a
//! narrow field whose sentinel value points at a wider extended field —
//! live here.

use crate::error::SmbiosError;
use crate::strtab::{string_index_ok, string_tail, StringTable};
use crate::types::{ArrayLocation, ArrayUse, ErrorCorrectionType, FormFactor, MemoryTechnology,
    MemoryType, PartitionRowPosition};
use crate::wire::{le16, le32, le64};
use crate::{Sink, SmbiosStructure};
use vstd::prelude::*;
use vstd::string::StringSliceAdditionalSpecFns;

verus! {

/// Fixed record of the physical memory array structure.
#[derive(Clone, Copy, Debug)]
pub struct Type16Data {
    pub handle: u16,
    pub location: ArrayLocation,
    pub array_use: ArrayUse,
    pub memory_error_correction: ErrorCorrectionType,
    pub maximum_capacity: u32,
    pub error_information_handle: u16,
    pub number_of_memory_devices: u16,
    pub extended_maximum_capacity: u64,
}

/// A collection of memory devices that operate together.
pub struct PhysicalMemoryArray {
    data: Type16Data,
    strings: StringTable,
}

impl PhysicalMemoryArray {
    pub closed spec fn spec_data(&self) -> Type16Data {
        self.data
    }

    pub closed spec fn spec_strings(&self) -> Seq<Seq<u8>> {
        self.strings@
    }

    /// The 0x17 fixed-record bytes: type id, length, handle, then the
    /// schema fields in declared order.
    pub open spec fn record_bytes(&self) -> Seq<u8> {
        seq![16u8, 0x17u8] + le16(self.spec_data().handle) + seq![
            self.spec_data().location.spec_code(),
            self.spec_data().array_use.spec_code(),
            self.spec_data().memory_error_correction.spec_code(),
        ] + le32(self.spec_data().maximum_capacity) + le16(
            self.spec_data().error_information_handle,
        ) + le16(self.spec_data().number_of_memory_devices) + le64(
            self.spec_data().extended_maximum_capacity,
        )
    }

    /// All fields start at their type-defined defaults.
    pub fn new(handle: u16) -> (r: Self)
        ensures
            r.spec_data() == (Type16Data {
                handle,
                location: ArrayLocation::Unknown,
                array_use: ArrayUse::Unknown,
                memory_error_correction: ErrorCorrectionType::Unknown,
                maximum_capacity: 0u32,
                error_information_handle: 0u16,
                number_of_memory_devices: 0u16,
                extended_maximum_capacity: 0u64,
            }),
            r.spec_strings() == Seq::<Seq<u8>>::empty(),
    {
        PhysicalMemoryArray {
            data: Type16Data {
                handle,
                location: ArrayLocation::Unknown,
                array_use: ArrayUse::Unknown,
                memory_error_correction: ErrorCorrectionType::Unknown,
                maximum_capacity: 0,
                error_information_handle: 0,
                number_of_memory_devices: 0,
                extended_maximum_capacity: 0,
            },
            strings: StringTable::new(),
        }
    }

    pub fn get_handle(&self) -> (r: u16)
        ensures
            r == self.spec_data().handle,
    {
        self.data.handle
    }

    pub fn set_location(&mut self, t: ArrayLocation)
        ensures
            final(self).spec_data() == (Type16Data { location: t, ..old(self).spec_data() }),
            final(self).spec_strings() == old(self).spec_strings(),
    {
        self.data.location = t;
    }

    pub fn set_array_use(&mut self, t: ArrayUse)
        ensures
            final(self).spec_data() == (Type16Data { array_use: t, ..old(self).spec_data() }),
            final(self).spec_strings() == old(self).spec_strings(),
    {
        self.data.array_use = t;
    }

    pub fn set_memory_error_correction(&mut self, t: ErrorCorrectionType)
        ensures
            final(self).spec_data() == (Type16Data {
                memory_error_correction: t,
                ..old(self).spec_data()
            }),
            final(self).spec_strings() == old(self).spec_strings(),
    {
        self.data.memory_error_correction = t;
    }

    pub fn set_maximum_capacity(&mut self, t: u32)
        ensures
            final(self).spec_data() == (Type16Data {
                maximum_capacity: t,
                ..old(self).spec_data()
            }),
            final(self).spec_strings() == old(self).spec_strings(),
    {
        self.data.maximum_capacity = t;
    }

    pub fn set_error_information_handle(&mut self, t: u16)
        ensures
            final(self).spec_data() == (Type16Data {
                error_information_handle: t,
                ..old(self).spec_data()
            }),
            final(self).spec_strings() == old(self).spec_strings(),
    {
        self.data.error_information_handle = t;
    }

    pub fn set_number_of_memory_devices(&mut self, t: u16)
        ensures
            final(self).spec_data() == (Type16Data {
                number_of_memory_devices: t,
                ..old(self).spec_data()
            }),
            final(self).spec_strings() == old(self).spec_strings(),
    {
        self.data.number_of_memory_devices = t;
    }

    pub fn set_extended_maximum_capacity(&mut self, t: u64)
        ensures
            final(self).spec_data() == (Type16Data {
                extended_maximum_capacity: t,
                ..old(self).spec_data()
            }),
            final(self).spec_strings() == old(self).spec_strings(),
    {
        self.data.extended_maximum_capacity = t;
    }

    /// Encode a capacity given in bytes. At or above 2 TiB the narrow
    /// field holds the sentinel and the extended field the exact byte
    /// count; below, the narrow field holds kilobytes and the extended
    /// field zero.
    pub fn set_memory_capacity(&mut self, memory_capacity_bytes: u64)
        ensures
            memory_capacity_bytes >= 0x200_0000_0000u64 ==> final(self).spec_data() == (Type16Data {
                maximum_capacity: 0x8000_0000u32,
                extended_maximum_capacity: memory_capacity_bytes,
                ..old(self).spec_data()
            }),
            memory_capacity_bytes < 0x200_0000_0000u64 ==> final(self).spec_data() == (Type16Data {
                maximum_capacity: (memory_capacity_bytes / 1024) as u32,
                extended_maximum_capacity: 0u64,
                ..old(self).spec_data()
            }),
            final(self).spec_strings() == old(self).spec_strings(),
    {
        proof {
            assert(2u64 << 40 == 0x200_0000_0000u64) by (bit_vector);
        }
        if memory_capacity_bytes >= crate::units::tb(2) {
            self.data.maximum_capacity = 0x8000_0000;
            self.data.extended_maximum_capacity = memory_capacity_bytes;
        } else {
            proof {
                assert(memory_capacity_bytes / 1024 < 0x1_0000_0000) by (bit_vector)
                    requires
                        memory_capacity_bytes < 0x200_0000_0000u64,
                ;
            }
            self.data.maximum_capacity = (memory_capacity_bytes / 1024) as u32;
            self.data.extended_maximum_capacity = 0;
        }
    }
}

impl SmbiosStructure for PhysicalMemoryArray {
    open spec fn spec_serialized(&self) -> Seq<u8> {
        self.record_bytes() + string_tail(self.spec_strings())
    }

    open spec fn wf(&self) -> bool {
        self.spec_strings().len() <= 255
    }

    fn serialize<S: Sink>(&self, sink: &mut S) {
        sink.byte(16);
        sink.byte(0x17);
        sink.word(self.data.handle);
        sink.byte(self.data.location.code());
        sink.byte(self.data.array_use.code());
        sink.byte(self.data.memory_error_correction.code());
        sink.dword(self.data.maximum_capacity);
        sink.word(self.data.error_information_handle);
        sink.word(self.data.number_of_memory_devices);
        sink.qword(self.data.extended_maximum_capacity);
        self.strings.emit_tail(sink);
        proof {
            assert(sink.sunk() =~= old(sink).sunk() + self.spec_serialized());
        }
    }
}

/// The fixed record of the physical memory array structure is always
/// 0x17 bytes — its spec constant, also held by its length byte —
/// independent of any strings added.
pub proof fn lemma_type16_record_size(x: &PhysicalMemoryArray)
    ensures
        x.record_bytes().len() == 0x17,
        x.record_bytes()[1] == 0x17,
{
}

/// Fixed record of the memory array mapped address structure.
#[derive(Clone, Copy, Debug)]
pub struct Type19Data {
    pub handle: u16,
    pub starting_address: u32,
    pub ending_address: u32,
    pub memory_array_handle: u16,
    pub partition_width: u8,
    pub extended_starting_address: u64,
    pub extended_ending_address: u64,
}

/// The address range a physical memory array occupies.
pub struct MemoryArrayMappedAddress {
    data: Type19Data,
    strings: StringTable,
}

impl MemoryArrayMappedAddress {
    pub closed spec fn spec_data(&self) -> Type19Data {
        self.data
    }

    pub closed spec fn spec_strings(&self) -> Seq<Seq<u8>> {
        self.strings@
    }

    /// The 0x1f fixed-record bytes.
    pub open spec fn record_bytes(&self) -> Seq<u8> {
        seq![19u8, 0x1fu8] + le16(self.spec_data().handle) + le32(self.spec_data().starting_address)
            + le32(self.spec_data().ending_address) + le16(self.spec_data().memory_array_handle)
            + seq![self.spec_data().partition_width] + le64(
            self.spec_data().extended_starting_address,
        ) + le64(self.spec_data().extended_ending_address)
    }

    pub fn new(handle: u16) -> (r: Self)
        ensures
            r.spec_data() == (Type19Data {
                handle,
                starting_address: 0u32,
                ending_address: 0u32,
                memory_array_handle: 0u16,
                partition_width: 0u8,
                extended_starting_address: 0u64,
                extended_ending_address: 0u64,
            }),
            r.spec_strings() == Seq::<Seq<u8>>::empty(),
    {
        MemoryArrayMappedAddress {
            data: Type19Data {
                handle,
                starting_address: 0,
                ending_address: 0,
                memory_array_handle: 0,
                partition_width: 0,
                extended_starting_address: 0,
                extended_ending_address: 0,
            },
            strings: StringTable::new(),
        }
    }

    pub fn get_handle(&self) -> (r: u16)
        ensures
            r == self.spec_data().handle,
    {
        self.data.handle
    }

    pub fn set_starting_address(&mut self, t: u32)
        ensures
            final(self).spec_data() == (Type19Data {
                starting_address: t,
                ..old(self).spec_data()
            }),
            final(self).spec_strings() == old(self).spec_strings(),
    {
        self.data.starting_address = t;
    }

    pub fn set_ending_address(&mut self, t: u32)
        ensures
            final(self).spec_data() == (Type19Data { ending_address: t, ..old(self).spec_data() }),
            final(self).spec_strings() == old(self).spec_strings(),
    {
        self.data.ending_address = t;
    }

    pub fn set_memory_array_handle(&mut self, t: u16)
        ensures
            final(self).spec_data() == (Type19Data {
                memory_array_handle: t,
                ..old(self).spec_data()
            }),
            final(self).spec_strings() == old(self).spec_strings(),
    {
        self.data.memory_array_handle = t;
    }

    pub fn set_partition_width(&mut self, t: u8)
        ensures
            final(self).spec_data() == (Type19Data { partition_width: t, ..old(self).spec_data() }),
            final(self).spec_strings() == old(self).spec_strings(),
    {
        self.data.partition_width = t;
    }

    pub fn set_extended_starting_address(&mut self, t: u64)
        ensures
            final(self).spec_data() == (Type19Data {
                extended_starting_address: t,
                ..old(self).spec_data()
            }),
            final(self).spec_strings() == old(self).spec_strings(),
    {
        self.data.extended_starting_address = t;
    }

    pub fn set_extended_ending_address(&mut self, t: u64)
        ensures
            final(self).spec_data() == (Type19Data {
                extended_ending_address: t,
                ..old(self).spec_data()
            }),
            final(self).spec_strings() == old(self).spec_strings(),
    {
        self.data.extended_ending_address = t;
    }

    /// Store the range in the extended fields; the narrow fields always
    /// carry the all-ones sentinel, the legacy path is never used.
    pub fn set_address_range(&mut self, starting: u64, ending: u64)
        ensures
            final(self).spec_data() == (Type19Data {
                starting_address: 0xffff_ffffu32,
                ending_address: 0xffff_ffffu32,
                extended_starting_address: starting,
                extended_ending_address: ending,
                ..old(self).spec_data()
            }),
            final(self).spec_strings() == old(self).spec_strings(),
    {
        self.data.starting_address = 0xffff_ffff;
        self.data.ending_address = 0xffff_ffff;
        self.data.extended_starting_address = starting;
        self.data.extended_ending_address = ending;
    }
}

impl SmbiosStructure for MemoryArrayMappedAddress {
    open spec fn spec_serialized(&self) -> Seq<u8> {
        self.record_bytes() + string_tail(self.spec_strings())
    }

    open spec fn wf(&self) -> bool {
        self.spec_strings().len() <= 255
    }

    fn serialize<S: Sink>(&self, sink: &mut S) {
        sink.byte(19);
        sink.byte(0x1f);
        sink.word(self.data.handle);
        sink.dword(self.data.starting_address);
        sink.dword(self.data.ending_address);
        sink.word(self.data.memory_array_handle);
        sink.byte(self.data.partition_width);
        sink.qword(self.data.extended_starting_address);
        sink.qword(self.data.extended_ending_address);
        self.strings.emit_tail(sink);
        proof {
            assert(sink.sunk() =~= old(sink).sunk() + self.spec_serialized());
        }
    }
}

/// The fixed record of the memory array mapped address structure is
/// always 0x1f bytes — its spec constant, also held by its length byte.
pub proof fn lemma_type19_record_size(x: &MemoryArrayMappedAddress)
    ensures
        x.record_bytes().len() == 0x1f,
        x.record_bytes()[1] == 0x1f,
{
}

/// Fixed record of the memory device mapped address structure.
#[derive(Clone, Copy, Debug)]
pub struct Type20Data {
    pub handle: u16,
    pub starting_address: u32,
    pub ending_address: u32,
    pub memory_device_handle: u16,
    pub memory_array_mapped_address_handle: u16,
    pub partition_row_position: PartitionRowPosition,
    pub interleave_position: u8,
    pub interleaved_data_depth: u8,
    pub extended_starting_address: u64,
    pub extended_ending_address: u64,
}

/// The address range one memory device occupies.
pub struct MemoryDeviceMappedAddress {
    data: Type20Data,
    strings: StringTable,
}

impl MemoryDeviceMappedAddress {
    pub closed spec fn spec_data(&self) -> Type20Data {
        self.data
    }

    pub closed spec fn spec_strings(&self) -> Seq<Seq<u8>> {
        self.strings@
    }

    /// The 0x23 fixed-record bytes.
    pub open spec fn record_bytes(&self) -> Seq<u8> {
        seq![20u8, 0x23u8] + le16(self.spec_data().handle) + le32(self.spec_data().starting_address)
            + le32(self.spec_data().ending_address) + le16(self.spec_data().memory_device_handle)
            + le16(self.spec_data().memory_array_mapped_address_handle) + seq![
            self.spec_data().partition_row_position.spec_code(),
            self.spec_data().interleave_position,
            self.spec_data().interleaved_data_depth,
        ] + le64(self.spec_data().extended_starting_address) + le64(
            self.spec_data().extended_ending_address,
        )
    }

    pub fn new(handle: u16) -> (r: Self)
        ensures
            r.spec_data() == (Type20Data {
                handle,
                starting_address: 0u32,
                ending_address: 0u32,
                memory_device_handle: 0u16,
                memory_array_mapped_address_handle: 0u16,
                partition_row_position: PartitionRowPosition::Unknown,
                interleave_position: 0u8,
                interleaved_data_depth: 0u8,
                extended_starting_address: 0u64,
                extended_ending_address: 0u64,
            }),
            r.spec_strings() == Seq::<Seq<u8>>::empty(),
    {
        MemoryDeviceMappedAddress {
            data: Type20Data {
                handle,
                starting_address: 0,
                ending_address: 0,
                memory_device_handle: 0,
                memory_array_mapped_address_handle: 0,
                partition_row_position: PartitionRowPosition::Unknown,
                interleave_position: 0,
                interleaved_data_depth: 0,
                extended_starting_address: 0,
                extended_ending_address: 0,
            },
            strings: StringTable::new(),
        }
    }

    pub fn get_handle(&self) -> (r: u16)
        ensures
            r == self.spec_data().handle,
    {
        self.data.handle
    }

    pub fn set_starting_address(&mut self, t: u32)
        ensures
            final(self).spec_data() == (Type20Data {
                starting_address: t,
                ..old(self).spec_data()
            }),
            final(self).spec_strings() == old(self).spec_strings(),
    {
        self.data.starting_address = t;
    }

    pub fn set_ending_address(&mut self, t: u32)
        ensures
            final(self).spec_data() == (Type20Data { ending_address: t, ..old(self).spec_data() }),
            final(self).spec_strings() == old(self).spec_strings(),
    {
        self.data.ending_address = t;
    }

    pub fn set_memory_device_handle(&mut self, t: u16)
        ensures
            final(self).spec_data() == (Type20Data {
                memory_device_handle: t,
                ..old(self).spec_data()
            }),
            final(self).spec_strings() == old(self).spec_strings(),
    {
        self.data.memory_device_handle = t;
    }

    pub fn set_memory_array_mapped_address_handle(&mut self, t: u16)
        ensures
            final(self).spec_data() == (Type20Data {
                memory_array_mapped_address_handle: t,
                ..old(self).spec_data()
            }),
            final(self).spec_strings() == old(self).spec_strings(),
    {
        self.data.memory_array_mapped_address_handle = t;
    }

    pub fn set_partition_row_position(&mut self, t: PartitionRowPosition)
        ensures
            final(self).spec_data() == (Type20Data {
                partition_row_position: t,
                ..old(self).spec_data()
            }),
            final(self).spec_strings() == old(self).spec_strings(),
    {
        self.data.partition_row_position = t;
    }

    pub fn set_interleave_position(&mut self, t: u8)
        ensures
            final(self).spec_data() == (Type20Data {
                interleave_position: t,
                ..old(self).spec_data()
            }),
            final(self).spec_strings() == old(self).spec_strings(),
    {
        self.data.interleave_position = t;
    }

    pub fn set_interleaved_data_depth(&mut self, t: u8)
        ensures
            final(self).spec_data() == (Type20Data {
                interleaved_data_depth: t,
                ..old(self).spec_data()
            }),
            final(self).spec_strings() == old(self).spec_strings(),
    {
        self.data.interleaved_data_depth = t;
    }

    pub fn set_extended_starting_address(&mut self, t: u64)
        ensures
            final(self).spec_data() == (Type20Data {
                extended_starting_address: t,
                ..old(self).spec_data()
            }),
            final(self).spec_strings() == old(self).spec_strings(),
    {
        self.data.extended_starting_address = t;
    }

    pub fn set_extended_ending_address(&mut self, t: u64)
        ensures
            final(self).spec_data() == (Type20Data {
                extended_ending_address: t,
                ..old(self).spec_data()
            }),
            final(self).spec_strings() == old(self).spec_strings(),
    {
        self.data.extended_ending_address = t;
    }

    /// Store the range in the extended fields; the narrow fields always
    /// carry the all-ones sentinel, the legacy path is never used.
    pub fn set_address_range(&mut self, starting: u64, ending: u64)
        ensures
            final(self).spec_data() == (Type20Data {
                starting_address: 0xffff_ffffu32,
                ending_address: 0xffff_ffffu32,
                extended_starting_address: starting,
                extended_ending_address: ending,
                ..old(self).spec_data()
            }),
            final(self).spec_strings() == old(self).spec_strings(),
    {
        self.data.starting_address = 0xffff_ffff;
        self.data.ending_address = 0xffff_ffff;
        self.data.extended_starting_address = starting;
        self.data.extended_ending_address = ending;
    }
}

impl SmbiosStructure for MemoryDeviceMappedAddress {
    open spec fn spec_serialized(&self) -> Seq<u8> {
        self.record_bytes() + string_tail(self.spec_strings())
    }

    open spec fn wf(&self) -> bool {
        self.spec_strings().len() <= 255
    }

    fn serialize<S: Sink>(&self, sink: &mut S) {
        sink.byte(20);
        sink.byte(0x23);
        sink.word(self.data.handle);
        sink.dword(self.data.starting_address);
        sink.dword(self.data.ending_address);
        sink.word(self.data.memory_device_handle);
        sink.word(self.data.memory_array_mapped_address_handle);
        sink.byte(self.data.partition_row_position.code());
        sink.byte(self.data.interleave_position);
        sink.byte(self.data.interleaved_data_depth);
        sink.qword(self.data.extended_starting_address);
        sink.qword(self.data.extended_ending_address);
        self.strings.emit_tail(sink);
        proof {
            assert(sink.sunk() =~= old(sink).sunk() + self.spec_serialized());
        }
    }
}

/// The fixed record of the memory device mapped address structure is
/// always 0x23 bytes — its spec constant, also held by its length byte.
pub proof fn lemma_type20_record_size(x: &MemoryDeviceMappedAddress)
    ensures
        x.record_bytes().len() == 0x23,
        x.record_bytes()[1] == 0x23,
{
}

/// Fixed record of the memory device structure.
#[derive(Clone, Copy, Debug)]
pub struct Type17Data {
    pub handle: u16,
    pub physical_memory_array_handle: u16,
    pub error_information_handle: u16,
    pub total_width: u16,
    pub data_width: u16,
    pub size: u16,
    pub form_factor: FormFactor,
    pub device_set: u8,
    pub device_locator: u8,
    pub bank_locator: u8,
    pub memory_type: MemoryType,
    pub type_detail: u16,
    pub speed: u16,
    pub manufacturer: u8,
    pub serial_number: u8,
    pub asset_tag: u8,
    pub part_number: u8,
    pub attributes: u8,
    pub extended_size: u32,
    pub configured_memory_speed: u16,
    pub minimum_voltage: u16,
    pub maximum_voltage: u16,
    pub configured_voltage: u16,
    pub memory_technology: MemoryTechnology,
    pub memory_operating_mode: u16,
    pub firmware_version: u8,
    pub module_manufacturer_id: u16,
    pub module_product_id: u16,
    pub memory_subsystem_controller_manufacturer_id: u16,
    pub memory_subsystem_controller_product_id: u16,
    pub non_volatile_size: u64,
    pub volatile_size: u64,
    pub cache_size: u64,
    pub logical_size: u64,
    pub extended_speed: u32,
    pub extended_configured_memory_speed: u32,
    pub pmic0_manufacturer_id: u16,
    pub pmic0_revision_number: u16,
    pub rcd_manufacturer_id: u16,
    pub rcd_revision_number: u16,
}

/// One memory device of a physical memory array.
pub struct MemoryDevice {
    data: Type17Data,
    strings: StringTable,
}

impl MemoryDevice {
    pub closed spec fn spec_data(&self) -> Type17Data {
        self.data
    }

    pub closed spec fn spec_strings(&self) -> Seq<Seq<u8>> {
        self.strings@
    }

    /// Header, widths and locator fields of the fixed record.
    pub open spec fn record_head(&self) -> Seq<u8> {
        let d = self.spec_data();
        seq![17u8, 0x64u8] + le16(d.handle) + le16(d.physical_memory_array_handle) + le16(
            d.error_information_handle,
        ) + le16(d.total_width) + le16(d.data_width) + le16(d.size) + seq![
            d.form_factor.spec_code(),
            d.device_set,
            d.device_locator,
            d.bank_locator,
            d.memory_type.spec_code(),
        ]
    }

    /// Detail, speed, identification and voltage fields.
    pub open spec fn record_mid(&self) -> Seq<u8> {
        let d = self.spec_data();
        le16(d.type_detail) + le16(d.speed) + seq![
            d.manufacturer,
            d.serial_number,
            d.asset_tag,
            d.part_number,
            d.attributes,
        ] + le32(d.extended_size) + le16(d.configured_memory_speed) + le16(d.minimum_voltage)
            + le16(d.maximum_voltage) + le16(d.configured_voltage)
    }

    /// Technology, operating mode and manufacturer id fields.
    pub open spec fn record_ids(&self) -> Seq<u8> {
        let d = self.spec_data();
        seq![d.memory_technology.spec_code()] + le16(d.memory_operating_mode) + seq![
            d.firmware_version,
        ] + le16(d.module_manufacturer_id) + le16(d.module_product_id) + le16(
            d.memory_subsystem_controller_manufacturer_id,
        ) + le16(d.memory_subsystem_controller_product_id)
    }

    /// Partitioned sizes, extended speeds and component revision fields.
    pub open spec fn record_sizes(&self) -> Seq<u8> {
        let d = self.spec_data();
        le64(d.non_volatile_size) + le64(d.volatile_size) + le64(d.cache_size) + le64(
            d.logical_size,
        ) + le32(d.extended_speed) + le32(d.extended_configured_memory_speed) + le16(
            d.pmic0_manufacturer_id,
        ) + le16(d.pmic0_revision_number) + le16(d.rcd_manufacturer_id) + le16(
            d.rcd_revision_number,
        )
    }

    /// The 0x64 fixed-record bytes: type id, length, handle, then the
    /// schema fields in declared order.
    pub open spec fn record_bytes(&self) -> Seq<u8> {
        self.record_head() + self.record_mid() + self.record_ids() + self.record_sizes()
    }

    /// All fields start at their type-defined defaults.
    pub fn new(handle: u16) -> (r: Self)
        ensures
            r.spec_data() == (Type17Data {
                handle,
                physical_memory_array_handle: 0u16,
                error_information_handle: 0u16,
                total_width: 0u16,
                data_width: 0u16,
                size: 0u16,
                form_factor: FormFactor::Unknown,
                device_set: 0u8,
                device_locator: 0u8,
                bank_locator: 0u8,
                memory_type: MemoryType::Unknown,
                type_detail: 0u16,
                speed: 0u16,
                manufacturer: 0u8,
                serial_number: 0u8,
                asset_tag: 0u8,
                part_number: 0u8,
                attributes: 0u8,
                extended_size: 0u32,
                configured_memory_speed: 0u16,
                minimum_voltage: 0u16,
                maximum_voltage: 0u16,
                configured_voltage: 0u16,
                memory_technology: MemoryTechnology::Unknown,
                memory_operating_mode: 0u16,
                firmware_version: 0u8,
                module_manufacturer_id: 0u16,
                module_product_id: 0u16,
                memory_subsystem_controller_manufacturer_id: 0u16,
                memory_subsystem_controller_product_id: 0u16,
                non_volatile_size: 0u64,
                volatile_size: 0u64,
                cache_size: 0u64,
                logical_size: 0u64,
                extended_speed: 0u32,
                extended_configured_memory_speed: 0u32,
                pmic0_manufacturer_id: 0u16,
                pmic0_revision_number: 0u16,
                rcd_manufacturer_id: 0u16,
                rcd_revision_number: 0u16,
            }),
            r.spec_strings() == Seq::<Seq<u8>>::empty(),
    {
        MemoryDevice {
            data: Type17Data {
                handle,
                physical_memory_array_handle: 0,
                error_information_handle: 0,
                total_width: 0,
                data_width: 0,
                size: 0,
                form_factor: FormFactor::Unknown,
                device_set: 0,
                device_locator: 0,
                bank_locator: 0,
                memory_type: MemoryType::Unknown,
                type_detail: 0,
                speed: 0,
                manufacturer: 0,
                serial_number: 0,
                asset_tag: 0,
                part_number: 0,
                attributes: 0,
                extended_size: 0,
                configured_memory_speed: 0,
                minimum_voltage: 0,
                maximum_voltage: 0,
                configured_voltage: 0,
                memory_technology: MemoryTechnology::Unknown,
                memory_operating_mode: 0,
                firmware_version: 0,
                module_manufacturer_id: 0,
                module_product_id: 0,
                memory_subsystem_controller_manufacturer_id: 0,
                memory_subsystem_controller_product_id: 0,
                non_volatile_size: 0,
                volatile_size: 0,
                cache_size: 0,
                logical_size: 0,
                extended_speed: 0,
                extended_configured_memory_speed: 0,
                pmic0_manufacturer_id: 0,
                pmic0_revision_number: 0,
                rcd_manufacturer_id: 0,
                rcd_revision_number: 0,
            },
            strings: StringTable::new(),
        }
    }

    pub fn get_handle(&self) -> (r: u16)
        ensures
            r == self.spec_data().handle,
    {
        self.data.handle
    }

    pub fn set_physical_memory_array_handle(&mut self, t: u16)
        ensures
            final(self).spec_data() == (Type17Data { physical_memory_array_handle: t, ..old(self).spec_data() }),
            final(self).spec_strings() == old(self).spec_strings(),
    {
        self.data.physical_memory_array_handle = t;
    }

    pub fn set_error_information_handle(&mut self, t: u16)
        ensures
            final(self).spec_data() == (Type17Data { error_information_handle: t, ..old(self).spec_data() }),
            final(self).spec_strings() == old(self).spec_strings(),
    {
        self.data.error_information_handle = t;
    }

    pub fn set_total_width(&mut self, t: u16)
        ensures
            final(self).spec_data() == (Type17Data { total_width: t, ..old(self).spec_data() }),
            final(self).spec_strings() == old(self).spec_strings(),
    {
        self.data.total_width = t;
    }

    pub fn set_data_width(&mut self, t: u16)
        ensures
            final(self).spec_data() == (Type17Data { data_width: t, ..old(self).spec_data() }),
            final(self).spec_strings() == old(self).spec_strings(),
    {
        self.data.data_width = t;
    }

    /// Store the narrow size field verbatim; `set_memory_size` is the
    /// scaled encoder.
    pub fn set_size(&mut self, t: u16)
        ensures
            final(self).spec_data() == (Type17Data { size: t, ..old(self).spec_data() }),
            final(self).spec_strings() == old(self).spec_strings(),
    {
        self.data.size = t;
    }

    pub fn set_form_factor(&mut self, t: FormFactor)
        ensures
            final(self).spec_data() == (Type17Data { form_factor: t, ..old(self).spec_data() }),
            final(self).spec_strings() == old(self).spec_strings(),
    {
        self.data.form_factor = t;
    }

    pub fn set_device_set(&mut self, t: u8)
        ensures
            final(self).spec_data() == (Type17Data { device_set: t, ..old(self).spec_data() }),
            final(self).spec_strings() == old(self).spec_strings(),
    {
        self.data.device_set = t;
    }

    /// Append the string, storing its 1-based index in the `device_locator`
    /// field; a full string table refuses the append and leaves the
    /// structure unchanged.
    pub fn set_device_locator(&mut self, s: &str) -> (r: Result<u8, SmbiosError>)
        ensures
            old(self).spec_strings().len() < 255 ==> r == Ok::<u8, SmbiosError>(
                (old(self).spec_strings().len() + 1) as u8,
            ) && final(self).spec_strings() == old(self).spec_strings().push(s.spec_bytes())
                && final(self).spec_data() == (Type17Data {
                device_locator: (old(self).spec_strings().len() + 1) as u8,
                ..old(self).spec_data()
            }),
            old(self).spec_strings().len() >= 255 ==> r == Err::<u8, SmbiosError>(
                SmbiosError::StringTableFull,
            ) && final(self).spec_strings() == old(self).spec_strings() && final(self).spec_data()
                == old(self).spec_data(),
    {
        match self.strings.push_str(s) {
            Ok(idx) => {
                self.data.device_locator = idx;
                Ok(idx)
            },
            Err(e) => Err(e),
        }
    }

    /// Append the string, storing its 1-based index in the `bank_locator`
    /// field; a full string table refuses the append and leaves the
    /// structure unchanged.
    pub fn set_bank_locator(&mut self, s: &str) -> (r: Result<u8, SmbiosError>)
        ensures
            old(self).spec_strings().len() < 255 ==> r == Ok::<u8, SmbiosError>(
                (old(self).spec_strings().len() + 1) as u8,
            ) && final(self).spec_strings() == old(self).spec_strings().push(s.spec_bytes())
                && final(self).spec_data() == (Type17Data {
                bank_locator: (old(self).spec_strings().len() + 1) as u8,
                ..old(self).spec_data()
            }),
            old(self).spec_strings().len() >= 255 ==> r == Err::<u8, SmbiosError>(
                SmbiosError::StringTableFull,
            ) && final(self).spec_strings() == old(self).spec_strings() && final(self).spec_data()
                == old(self).spec_data(),
    {
        match self.strings.push_str(s) {
            Ok(idx) => {
                self.data.bank_locator = idx;
                Ok(idx)
            },
            Err(e) => Err(e),
        }
    }

    pub fn set_memory_type(&mut self, t: MemoryType)
        ensures
            final(self).spec_data() == (Type17Data { memory_type: t, ..old(self).spec_data() }),
            final(self).spec_strings() == old(self).spec_strings(),
    {
        self.data.memory_type = t;
    }

    pub fn set_type_detail(&mut self, t: u16)
        ensures
            final(self).spec_data() == (Type17Data { type_detail: t, ..old(self).spec_data() }),
            final(self).spec_strings() == old(self).spec_strings(),
    {
        self.data.type_detail = t;
    }

    pub fn set_speed(&mut self, t: u16)
        ensures
            final(self).spec_data() == (Type17Data { speed: t, ..old(self).spec_data() }),
            final(self).spec_strings() == old(self).spec_strings(),
    {
        self.data.speed = t;
    }

    /// Append the string, storing its 1-based index in the `manufacturer`
    /// field; a full string table refuses the append and leaves the
    /// structure unchanged.
    pub fn set_manufacturer(&mut self, s: &str) -> (r: Result<u8, SmbiosError>)
        ensures
            old(self).spec_strings().len() < 255 ==> r == Ok::<u8, SmbiosError>(
                (old(self).spec_strings().len() + 1) as u8,
            ) && final(self).spec_strings() == old(self).spec_strings().push(s.spec_bytes())
                && final(self).spec_data() == (Type17Data {
                manufacturer: (old(self).spec_strings().len() + 1) as u8,
                ..old(self).spec_data()
            }),
            old(self).spec_strings().len() >= 255 ==> r == Err::<u8, SmbiosError>(
                SmbiosError::StringTableFull,
            ) && final(self).spec_strings() == old(self).spec_strings() && final(self).spec_data()
                == old(self).spec_data(),
    {
        match self.strings.push_str(s) {
            Ok(idx) => {
                self.data.manufacturer = idx;
                Ok(idx)
            },
            Err(e) => Err(e),
        }
    }

    /// Append the string, storing its 1-based index in the `serial_number`
    /// field; a full string table refuses the append and leaves the
    /// structure unchanged.
    pub fn set_serial_number(&mut self, s: &str) -> (r: Result<u8, SmbiosError>)
        ensures
            old(self).spec_strings().len() < 255 ==> r == Ok::<u8, SmbiosError>(
                (old(self).spec_strings().len() + 1) as u8,
            ) && final(self).spec_strings() == old(self).spec_strings().push(s.spec_bytes())
                && final(self).spec_data() == (Type17Data {
                serial_number: (old(self).spec_strings().len() + 1) as u8,
                ..old(self).spec_data()
            }),
            old(self).spec_strings().len() >= 255 ==> r == Err::<u8, SmbiosError>(
                SmbiosError::StringTableFull,
            ) && final(self).spec_strings() == old(self).spec_strings() && final(self).spec_data()
                == old(self).spec_data(),
    {
        match self.strings.push_str(s) {
            Ok(idx) => {
                self.data.serial_number = idx;
                Ok(idx)
            },
            Err(e) => Err(e),
        }
    }

    /// Append the string, storing its 1-based index in the `asset_tag`
    /// field; a full string table refuses the append and leaves the
    /// structure unchanged.
    pub fn set_asset_tag(&mut self, s: &str) -> (r: Result<u8, SmbiosError>)
        ensures
            old(self).spec_strings().len() < 255 ==> r == Ok::<u8, SmbiosError>(
                (old(self).spec_strings().len() + 1) as u8,
            ) && final(self).spec_strings() == old(self).spec_strings().push(s.spec_bytes())
                && final(self).spec_data() == (Type17Data {
                asset_tag: (old(self).spec_strings().len() + 1) as u8,
                ..old(self).spec_data()
            }),
            old(self).spec_strings().len() >= 255 ==> r == Err::<u8, SmbiosError>(
                SmbiosError::StringTableFull,
            ) && final(self).spec_strings() == old(self).spec_strings() && final(self).spec_data()
                == old(self).spec_data(),
    {
        match self.strings.push_str(s) {
            Ok(idx) => {
                self.data.asset_tag = idx;
                Ok(idx)
            },
            Err(e) => Err(e),
        }
    }

    /// Append the string, storing its 1-based index in the `part_number`
    /// field; a full string table refuses the append and leaves the
    /// structure unchanged.
    pub fn set_part_number(&mut self, s: &str) -> (r: Result<u8, SmbiosError>)
        ensures
            old(self).spec_strings().len() < 255 ==> r == Ok::<u8, SmbiosError>(
                (old(self).spec_strings().len() + 1) as u8,
            ) && final(self).spec_strings() == old(self).spec_strings().push(s.spec_bytes())
                && final(self).spec_data() == (Type17Data {
                part_number: (old(self).spec_strings().len() + 1) as u8,
                ..old(self).spec_data()
            }),
            old(self).spec_strings().len() >= 255 ==> r == Err::<u8, SmbiosError>(
                SmbiosError::StringTableFull,
            ) && final(self).spec_strings() == old(self).spec_strings() && final(self).spec_data()
                == old(self).spec_data(),
    {
        match self.strings.push_str(s) {
            Ok(idx) => {
                self.data.part_number = idx;
                Ok(idx)
            },
            Err(e) => Err(e),
        }
    }

    pub fn set_attributes(&mut self, t: u8)
        ensures
            final(self).spec_data() == (Type17Data { attributes: t, ..old(self).spec_data() }),
            final(self).spec_strings() == old(self).spec_strings(),
    {
        self.data.attributes = t;
    }

    pub fn set_extended_size(&mut self, t: u32)
        ensures
            final(self).spec_data() == (Type17Data { extended_size: t, ..old(self).spec_data() }),
            final(self).spec_strings() == old(self).spec_strings(),
    {
        self.data.extended_size = t;
    }

    pub fn set_configured_memory_speed(&mut self, t: u16)
        ensures
            final(self).spec_data() == (Type17Data { configured_memory_speed: t, ..old(self).spec_data() }),
            final(self).spec_strings() == old(self).spec_strings(),
    {
        self.data.configured_memory_speed = t;
    }

    pub fn set_minimum_voltage(&mut self, t: u16)
        ensures
            final(self).spec_data() == (Type17Data { minimum_voltage: t, ..old(self).spec_data() }),
            final(self).spec_strings() == old(self).spec_strings(),
    {
        self.data.minimum_voltage = t;
    }

    pub fn set_maximum_voltage(&mut self, t: u16)
        ensures
            final(self).spec_data() == (Type17Data { maximum_voltage: t, ..old(self).spec_data() }),
            final(self).spec_strings() == old(self).spec_strings(),
    {
        self.data.maximum_voltage = t;
    }

    pub fn set_configured_voltage(&mut self, t: u16)
        ensures
            final(self).spec_data() == (Type17Data { configured_voltage: t, ..old(self).spec_data() }),
            final(self).spec_strings() == old(self).spec_strings(),
    {
        self.data.configured_voltage = t;
    }

    pub fn set_memory_technology(&mut self, t: MemoryTechnology)
        ensures
            final(self).spec_data() == (Type17Data { memory_technology: t, ..old(self).spec_data() }),
            final(self).spec_strings() == old(self).spec_strings(),
    {
        self.data.memory_technology = t;
    }

    pub fn set_memory_operating_mode(&mut self, t: u16)
        ensures
            final(self).spec_data() == (Type17Data { memory_operating_mode: t, ..old(self).spec_data() }),
            final(self).spec_strings() == old(self).spec_strings(),
    {
        self.data.memory_operating_mode = t;
    }

    /// Append the string, storing its 1-based index in the `firmware_version`
    /// field; a full string table refuses the append and leaves the
    /// structure unchanged.
    pub fn set_firmware_version(&mut self, s: &str) -> (r: Result<u8, SmbiosError>)
        ensures
            old(self).spec_strings().len() < 255 ==> r == Ok::<u8, SmbiosError>(
                (old(self).spec_strings().len() + 1) as u8,
            ) && final(self).spec_strings() == old(self).spec_strings().push(s.spec_bytes())
                && final(self).spec_data() == (Type17Data {
                firmware_version: (old(self).spec_strings().len() + 1) as u8,
                ..old(self).spec_data()
            }),
            old(self).spec_strings().len() >= 255 ==> r == Err::<u8, SmbiosError>(
                SmbiosError::StringTableFull,
            ) && final(self).spec_strings() == old(self).spec_strings() && final(self).spec_data()
                == old(self).spec_data(),
    {
        match self.strings.push_str(s) {
            Ok(idx) => {
                self.data.firmware_version = idx;
                Ok(idx)
            },
            Err(e) => Err(e),
        }
    }

    pub fn set_module_manufacturer_id(&mut self, t: u16)
        ensures
            final(self).spec_data() == (Type17Data { module_manufacturer_id: t, ..old(self).spec_data() }),
            final(self).spec_strings() == old(self).spec_strings(),
    {
        self.data.module_manufacturer_id = t;
    }

    pub fn set_module_product_id(&mut self, t: u16)
        ensures
            final(self).spec_data() == (Type17Data { module_product_id: t, ..old(self).spec_data() }),
            final(self).spec_strings() == old(self).spec_strings(),
    {
        self.data.module_product_id = t;
    }

    pub fn set_memory_subsystem_controller_manufacturer_id(&mut self, t: u16)
        ensures
            final(self).spec_data() == (Type17Data { memory_subsystem_controller_manufacturer_id: t, ..old(self).spec_data() }),
            final(self).spec_strings() == old(self).spec_strings(),
    {
        self.data.memory_subsystem_controller_manufacturer_id = t;
    }

    pub fn set_memory_subsystem_controller_product_id(&mut self, t: u16)
        ensures
            final(self).spec_data() == (Type17Data { memory_subsystem_controller_product_id: t, ..old(self).spec_data() }),
            final(self).spec_strings() == old(self).spec_strings(),
    {
        self.data.memory_subsystem_controller_product_id = t;
    }

    pub fn set_non_volatile_size(&mut self, t: u64)
        ensures
            final(self).spec_data() == (Type17Data { non_volatile_size: t, ..old(self).spec_data() }),
            final(self).spec_strings() == old(self).spec_strings(),
    {
        self.data.non_volatile_size = t;
    }

    pub fn set_volatile_size(&mut self, t: u64)
        ensures
            final(self).spec_data() == (Type17Data { volatile_size: t, ..old(self).spec_data() }),
            final(self).spec_strings() == old(self).spec_strings(),
    {
        self.data.volatile_size = t;
    }

    pub fn set_cache_size(&mut self, t: u64)
        ensures
            final(self).spec_data() == (Type17Data { cache_size: t, ..old(self).spec_data() }),
            final(self).spec_strings() == old(self).spec_strings(),
    {
        self.data.cache_size = t;
    }

    pub fn set_logical_size(&mut self, t: u64)
        ensures
            final(self).spec_data() == (Type17Data { logical_size: t, ..old(self).spec_data() }),
            final(self).spec_strings() == old(self).spec_strings(),
    {
        self.data.logical_size = t;
    }

    pub fn set_extended_speed(&mut self, t: u32)
        ensures
            final(self).spec_data() == (Type17Data { extended_speed: t, ..old(self).spec_data() }),
            final(self).spec_strings() == old(self).spec_strings(),
    {
        self.data.extended_speed = t;
    }

    pub fn set_extended_configured_memory_speed(&mut self, t: u32)
        ensures
            final(self).spec_data() == (Type17Data { extended_configured_memory_speed: t, ..old(self).spec_data() }),
            final(self).spec_strings() == old(self).spec_strings(),
    {
        self.data.extended_configured_memory_speed = t;
    }

    pub fn set_pmic0_manufacturer_id(&mut self, t: u16)
        ensures
            final(self).spec_data() == (Type17Data { pmic0_manufacturer_id: t, ..old(self).spec_data() }),
            final(self).spec_strings() == old(self).spec_strings(),
    {
        self.data.pmic0_manufacturer_id = t;
    }

    pub fn set_pmic0_revision_number(&mut self, t: u16)
        ensures
            final(self).spec_data() == (Type17Data { pmic0_revision_number: t, ..old(self).spec_data() }),
            final(self).spec_strings() == old(self).spec_strings(),
    {
        self.data.pmic0_revision_number = t;
    }

    pub fn set_rcd_manufacturer_id(&mut self, t: u16)
        ensures
            final(self).spec_data() == (Type17Data { rcd_manufacturer_id: t, ..old(self).spec_data() }),
            final(self).spec_strings() == old(self).spec_strings(),
    {
        self.data.rcd_manufacturer_id = t;
    }

    pub fn set_rcd_revision_number(&mut self, t: u16)
        ensures
            final(self).spec_data() == (Type17Data { rcd_revision_number: t, ..old(self).spec_data() }),
            final(self).spec_strings() == old(self).spec_strings(),
    {
        self.data.rcd_revision_number = t;
    }

    /// Encode an installed size given in bytes, or an absent size. An
    /// absent size becomes the all-ones narrow sentinel. At or above
    /// 32 GiB minus 1 MiB the narrow field holds its sentinel and the
    /// extended field the size in mebibytes; below, the narrow field
    /// holds mebibytes directly. A size too large for the extended field
    /// is refused and nothing changes.
    pub fn set_memory_size(&mut self, size: Option<u64>) -> (r: Result<(), SmbiosError>)
        ensures
            size is None ==> r is Ok && final(self).spec_data() == (Type17Data {
                size: 0xffffu16,
                ..old(self).spec_data()
            }),
            size matches Some(sz) ==> {
                &&& sz < 0x7_fff0_0000u64 ==> r is Ok && final(self).spec_data() == (Type17Data {
                    size: (sz >> 20) as u16,
                    ..old(self).spec_data()
                })
                &&& sz >= 0x7_fff0_0000u64 && (sz >> 20) <= 0xffff_ffffu64 ==> r is Ok
                    && final(self).spec_data() == (Type17Data {
                    size: 0x7fffu16,
                    extended_size: (sz >> 20) as u32,
                    ..old(self).spec_data()
                })
                &&& (sz >> 20) > 0xffff_ffffu64 ==> r == Err::<(), SmbiosError>(
                    SmbiosError::SizeOutOfRange,
                ) && final(self).spec_data() == old(self).spec_data()
            },
            final(self).spec_strings() == old(self).spec_strings(),
    {
        match size {
            Some(sz) => {
                proof {
                    assert((32u64 << 30) >= (1u64 << 20) && (32u64 << 30) - (1u64 << 20)
                        == 0x7_fff0_0000u64) by (bit_vector);
                }
                if sz >= crate::units::gb(32) - crate::units::mb(1) {
                    let size_mb: u64 = crate::units::to_mb(sz);
                    if size_mb > 0xffff_ffff {
                        proof {
                            assert(sz >= 0x7_fff0_0000u64 ==> ((sz >> 20) > 0xffff_ffffu64 <==> sz
                                >> 20 > 0xffff_ffffu64)) by (bit_vector);
                        }
                        return Err(SmbiosError::SizeOutOfRange);
                    }
                    self.data.size = 0x7fff;
                    self.data.extended_size = size_mb as u32;
                    Ok(())
                } else {
                    proof {
                        assert(sz < 0x7_fff0_0000u64 ==> (sz >> 20) < 0x8000u64) by (bit_vector);
                    }
                    self.data.size = crate::units::to_mb(sz) as u16;
                    Ok(())
                }
            },
            None => {
                self.data.size = 0xffff;
                Ok(())
            },
        }
    }
}

impl SmbiosStructure for MemoryDevice {
    open spec fn spec_serialized(&self) -> Seq<u8> {
        self.record_bytes() + string_tail(self.spec_strings())
    }

    /// The count stays within the format's bound and every
    /// string-reference field points into the table.
    open spec fn wf(&self) -> bool {
        &&& self.spec_strings().len() <= 255
        &&& string_index_ok(self.spec_data().device_locator, self.spec_strings())
        &&& string_index_ok(self.spec_data().bank_locator, self.spec_strings())
        &&& string_index_ok(self.spec_data().manufacturer, self.spec_strings())
        &&& string_index_ok(self.spec_data().serial_number, self.spec_strings())
        &&& string_index_ok(self.spec_data().asset_tag, self.spec_strings())
        &&& string_index_ok(self.spec_data().part_number, self.spec_strings())
        &&& string_index_ok(self.spec_data().firmware_version, self.spec_strings())
    }

    #[verifier::rlimit(100)]
    fn serialize<S: Sink>(&self, sink: &mut S) {
        sink.byte(17);
        sink.byte(0x64);
        sink.word(self.data.handle);
        sink.word(self.data.physical_memory_array_handle);
        sink.word(self.data.error_information_handle);
        sink.word(self.data.total_width);
        sink.word(self.data.data_width);
        sink.word(self.data.size);
        sink.byte(self.data.form_factor.code());
        sink.byte(self.data.device_set);
        sink.byte(self.data.device_locator);
        sink.byte(self.data.bank_locator);
        sink.byte(self.data.memory_type.code());
        proof {
            assert(sink.sunk() =~= old(sink).sunk() + self.record_head());
        }
        let ghost head_done = sink.sunk();
        sink.word(self.data.type_detail);
        sink.word(self.data.speed);
        sink.byte(self.data.manufacturer);
        sink.byte(self.data.serial_number);
        sink.byte(self.data.asset_tag);
        sink.byte(self.data.part_number);
        sink.byte(self.data.attributes);
        sink.dword(self.data.extended_size);
        sink.word(self.data.configured_memory_speed);
        sink.word(self.data.minimum_voltage);
        sink.word(self.data.maximum_voltage);
        sink.word(self.data.configured_voltage);
        proof {
            assert(sink.sunk() =~= head_done + self.record_mid());
        }
        let ghost mid_done = sink.sunk();
        sink.byte(self.data.memory_technology.code());
        sink.word(self.data.memory_operating_mode);
        sink.byte(self.data.firmware_version);
        sink.word(self.data.module_manufacturer_id);
        sink.word(self.data.module_product_id);
        sink.word(self.data.memory_subsystem_controller_manufacturer_id);
        sink.word(self.data.memory_subsystem_controller_product_id);
        proof {
            assert(sink.sunk() =~= mid_done + self.record_ids());
        }
        let ghost ids_done = sink.sunk();
        sink.qword(self.data.non_volatile_size);
        sink.qword(self.data.volatile_size);
        sink.qword(self.data.cache_size);
        sink.qword(self.data.logical_size);
        sink.dword(self.data.extended_speed);
        sink.dword(self.data.extended_configured_memory_speed);
        sink.word(self.data.pmic0_manufacturer_id);
        sink.word(self.data.pmic0_revision_number);
        sink.word(self.data.rcd_manufacturer_id);
        sink.word(self.data.rcd_revision_number);
        proof {
            assert(sink.sunk() =~= ids_done + self.record_sizes());
            assert(sink.sunk() =~= old(sink).sunk() + self.record_bytes());
        }
        let ghost record_done = sink.sunk();
        self.strings.emit_tail(sink);
        proof {
            assert(sink.sunk() == record_done + string_tail(self.spec_strings()));
            assert(sink.sunk() =~= old(sink).sunk() + self.spec_serialized());
        }
    }
}

/// The fixed record of the memory device structure is always 0x64
/// bytes — its spec constant, also held by its length byte.
pub proof fn lemma_type17_record_size(x: &MemoryDevice)
    ensures
        x.record_bytes().len() == 0x64,
        x.record_bytes()[1] == 0x64,
{
}

} // verus!
