//! Processor description structures: the processor information structure
//! and the processor additional-information structure carrying the
//! RISC-V register set.

use crate::error::SmbiosError;
use crate::strtab::{string_index_ok, string_tail, StringTable};
use crate::types::{ProcessorFamily, ProcessorFamily2, ProcessorType, ProcessorUpgrade, Xlen};
use crate::wire::{le128, le16, le32, le64};
use crate::{Sink, SmbiosStructure};
use vstd::prelude::*;
use vstd::string::StringSliceAdditionalSpecFns;

verus! {

/// Fixed record of the processor information structure.
#[derive(Clone, Copy, Debug)]
pub struct Type4Data {
    pub handle: u16,
    pub socket_designation: u8,
    pub processor_type: ProcessorType,
    pub processor_family: ProcessorFamily,
    pub processor_manufacturer: u8,
    pub processor_id: u64,
    pub processor_version: u8,
    pub voltage: u8,
    pub external_clock: u16,
    pub max_speed: u16,
    pub current_speed: u16,
    pub status: u8,
    pub processor_ugprade: ProcessorUpgrade,
    pub l1_cache_handle: u16,
    pub l2_cache_handle: u16,
    pub l3_cache_handle: u16,
    pub serial_number: u8,
    pub asset_tag: u8,
    pub part_number: u8,
    pub core_count: u8,
    pub core_enabled: u8,
    pub thread_count: u8,
    pub processor_characteristics: u16,
    pub processor_family2: ProcessorFamily2,
    pub core_count2: u16,
    pub core_enabled2: u16,
    pub thread_count2: u16,
    pub thread_enabled: u16,
}

pub struct ProcessorInformation {
    data: Type4Data,
    strings: StringTable,
}

impl ProcessorInformation {
    pub closed spec fn spec_data(&self) -> Type4Data {
        self.data
    }

    pub closed spec fn spec_strings(&self) -> Seq<Seq<u8>> {
        self.strings@
    }

    /// Socket, type, family, manufacturer and id fields.
    pub open spec fn record_head(&self) -> Seq<u8> {
        let d = self.spec_data();
        seq![4u8, 0x32u8] + le16(d.handle) + seq![d.socket_designation, d.processor_type.spec_code(), d.processor_family.spec_code(), d.processor_manufacturer] + le64(d.processor_id) + seq![d.processor_version]
    }

    /// Electrical, speed, status and cache-handle fields.
    pub open spec fn record_mid(&self) -> Seq<u8> {
        let d = self.spec_data();
        seq![d.voltage] + le16(d.external_clock) + le16(d.max_speed) + le16(d.current_speed) + seq![d.status, d.processor_ugprade.spec_code()] + le16(d.l1_cache_handle) + le16(d.l2_cache_handle) + le16(d.l3_cache_handle)
    }

    /// Identification strings, core counts and the second family.
    pub open spec fn record_tail(&self) -> Seq<u8> {
        let d = self.spec_data();
        seq![d.serial_number, d.asset_tag, d.part_number, d.core_count, d.core_enabled, d.thread_count] + le16(d.processor_characteristics) + le16(d.processor_family2.spec_code()) + le16(d.core_count2) + le16(d.core_enabled2) + le16(d.thread_count2) + le16(d.thread_enabled)
    }

    /// The 0x32 fixed-record bytes: type id, length, handle, then the
    /// schema fields in declared order.
    pub open spec fn record_bytes(&self) -> Seq<u8> {
        self.record_head() + self.record_mid() + self.record_tail()
    }

    /// All fields start at their type-defined defaults.
    pub fn new(handle: u16) -> (r: Self)
        ensures
            r.spec_data() == (Type4Data {
                handle,
                socket_designation: 0u8,
                processor_type: ProcessorType::Unknown,
                processor_family: ProcessorFamily::Unknown,
                processor_manufacturer: 0u8,
                processor_id: 0u64,
                processor_version: 0u8,
                voltage: 0u8,
                external_clock: 0u16,
                max_speed: 0u16,
                current_speed: 0u16,
                status: 0u8,
                processor_ugprade: ProcessorUpgrade::Unknown,
                l1_cache_handle: 0u16,
                l2_cache_handle: 0u16,
                l3_cache_handle: 0u16,
                serial_number: 0u8,
                asset_tag: 0u8,
                part_number: 0u8,
                core_count: 0u8,
                core_enabled: 0u8,
                thread_count: 0u8,
                processor_characteristics: 0u16,
                processor_family2: ProcessorFamily2::Reserved,
                core_count2: 0u16,
                core_enabled2: 0u16,
                thread_count2: 0u16,
                thread_enabled: 0u16,
            }),
            r.spec_strings() == Seq::<Seq<u8>>::empty(),
    {
        let r = ProcessorInformation {
            data: Type4Data {
                handle,
                socket_designation: 0,
                processor_type: ProcessorType::Unknown,
                processor_family: ProcessorFamily::Unknown,
                processor_manufacturer: 0,
                processor_id: 0,
                processor_version: 0,
                voltage: 0,
                external_clock: 0,
                max_speed: 0,
                current_speed: 0,
                status: 0,
                processor_ugprade: ProcessorUpgrade::Unknown,
                l1_cache_handle: 0,
                l2_cache_handle: 0,
                l3_cache_handle: 0,
                serial_number: 0,
                asset_tag: 0,
                part_number: 0,
                core_count: 0,
                core_enabled: 0,
                thread_count: 0,
                processor_characteristics: 0,
                processor_family2: ProcessorFamily2::Reserved,
                core_count2: 0,
                core_enabled2: 0,
                thread_count2: 0,
                thread_enabled: 0,
            },
            strings: StringTable::new(),
        };
        r
    }

    pub fn get_handle(&self) -> (r: u16)
        ensures
            r == self.spec_data().handle,
    {
        self.data.handle
    }

    /// Append the string, storing its 1-based index in the `socket_designation`
    /// field; a full string table refuses the append and leaves the
    /// structure unchanged.
    pub fn set_socket_designation(&mut self, s: &str) -> (r: Result<u8, SmbiosError>)
        ensures
            old(self).spec_strings().len() < 255 ==> r == Ok::<u8, SmbiosError>(
                (old(self).spec_strings().len() + 1) as u8,
            ) && final(self).spec_strings() == old(self).spec_strings().push(s.spec_bytes())
                && final(self).spec_data() == (Type4Data {
                socket_designation: (old(self).spec_strings().len() + 1) as u8,
                ..old(self).spec_data()
            }),
            old(self).spec_strings().len() >= 255 ==> r == Err::<u8, SmbiosError>(
                SmbiosError::StringTableFull,
            ) && final(self).spec_strings() == old(self).spec_strings() && final(self).spec_data()
                == old(self).spec_data(),
    {
        match self.strings.push_str(s) {
            Ok(idx) => {
                self.data.socket_designation = idx;
                Ok(idx)
            },
            Err(e) => Err(e),
        }
    }

    pub fn set_processor_type(&mut self, t: ProcessorType)
        ensures
            final(self).spec_data() == (Type4Data { processor_type: t, ..old(self).spec_data() }),
            final(self).spec_strings() == old(self).spec_strings(),
    {
        self.data.processor_type = t;
    }

    pub fn set_processor_family(&mut self, t: ProcessorFamily)
        ensures
            final(self).spec_data() == (Type4Data { processor_family: t, ..old(self).spec_data() }),
            final(self).spec_strings() == old(self).spec_strings(),
    {
        self.data.processor_family = t;
    }

    /// Append the string, storing its 1-based index in the `processor_manufacturer`
    /// field; a full string table refuses the append and leaves the
    /// structure unchanged.
    pub fn set_processor_manufacturer(&mut self, s: &str) -> (r: Result<u8, SmbiosError>)
        ensures
            old(self).spec_strings().len() < 255 ==> r == Ok::<u8, SmbiosError>(
                (old(self).spec_strings().len() + 1) as u8,
            ) && final(self).spec_strings() == old(self).spec_strings().push(s.spec_bytes())
                && final(self).spec_data() == (Type4Data {
                processor_manufacturer: (old(self).spec_strings().len() + 1) as u8,
                ..old(self).spec_data()
            }),
            old(self).spec_strings().len() >= 255 ==> r == Err::<u8, SmbiosError>(
                SmbiosError::StringTableFull,
            ) && final(self).spec_strings() == old(self).spec_strings() && final(self).spec_data()
                == old(self).spec_data(),
    {
        match self.strings.push_str(s) {
            Ok(idx) => {
                self.data.processor_manufacturer = idx;
                Ok(idx)
            },
            Err(e) => Err(e),
        }
    }

    pub fn set_processor_id(&mut self, t: u64)
        ensures
            final(self).spec_data() == (Type4Data { processor_id: t, ..old(self).spec_data() }),
            final(self).spec_strings() == old(self).spec_strings(),
    {
        self.data.processor_id = t;
    }

    /// Append the string, storing its 1-based index in the `processor_version`
    /// field; a full string table refuses the append and leaves the
    /// structure unchanged.
    pub fn set_processor_version(&mut self, s: &str) -> (r: Result<u8, SmbiosError>)
        ensures
            old(self).spec_strings().len() < 255 ==> r == Ok::<u8, SmbiosError>(
                (old(self).spec_strings().len() + 1) as u8,
            ) && final(self).spec_strings() == old(self).spec_strings().push(s.spec_bytes())
                && final(self).spec_data() == (Type4Data {
                processor_version: (old(self).spec_strings().len() + 1) as u8,
                ..old(self).spec_data()
            }),
            old(self).spec_strings().len() >= 255 ==> r == Err::<u8, SmbiosError>(
                SmbiosError::StringTableFull,
            ) && final(self).spec_strings() == old(self).spec_strings() && final(self).spec_data()
                == old(self).spec_data(),
    {
        match self.strings.push_str(s) {
            Ok(idx) => {
                self.data.processor_version = idx;
                Ok(idx)
            },
            Err(e) => Err(e),
        }
    }

    pub fn set_voltage(&mut self, t: u8)
        ensures
            final(self).spec_data() == (Type4Data { voltage: t, ..old(self).spec_data() }),
            final(self).spec_strings() == old(self).spec_strings(),
    {
        self.data.voltage = t;
    }

    pub fn set_external_clock(&mut self, t: u16)
        ensures
            final(self).spec_data() == (Type4Data { external_clock: t, ..old(self).spec_data() }),
            final(self).spec_strings() == old(self).spec_strings(),
    {
        self.data.external_clock = t;
    }

    pub fn set_max_speed(&mut self, t: u16)
        ensures
            final(self).spec_data() == (Type4Data { max_speed: t, ..old(self).spec_data() }),
            final(self).spec_strings() == old(self).spec_strings(),
    {
        self.data.max_speed = t;
    }

    pub fn set_current_speed(&mut self, t: u16)
        ensures
            final(self).spec_data() == (Type4Data { current_speed: t, ..old(self).spec_data() }),
            final(self).spec_strings() == old(self).spec_strings(),
    {
        self.data.current_speed = t;
    }

    pub fn set_status(&mut self, t: u8)
        ensures
            final(self).spec_data() == (Type4Data { status: t, ..old(self).spec_data() }),
            final(self).spec_strings() == old(self).spec_strings(),
    {
        self.data.status = t;
    }

    pub fn set_processor_ugprade(&mut self, t: ProcessorUpgrade)
        ensures
            final(self).spec_data() == (Type4Data { processor_ugprade: t, ..old(self).spec_data() }),
            final(self).spec_strings() == old(self).spec_strings(),
    {
        self.data.processor_ugprade = t;
    }

    pub fn set_l1_cache_handle(&mut self, t: u16)
        ensures
            final(self).spec_data() == (Type4Data { l1_cache_handle: t, ..old(self).spec_data() }),
            final(self).spec_strings() == old(self).spec_strings(),
    {
        self.data.l1_cache_handle = t;
    }

    pub fn set_l2_cache_handle(&mut self, t: u16)
        ensures
            final(self).spec_data() == (Type4Data { l2_cache_handle: t, ..old(self).spec_data() }),
            final(self).spec_strings() == old(self).spec_strings(),
    {
        self.data.l2_cache_handle = t;
    }

    pub fn set_l3_cache_handle(&mut self, t: u16)
        ensures
            final(self).spec_data() == (Type4Data { l3_cache_handle: t, ..old(self).spec_data() }),
            final(self).spec_strings() == old(self).spec_strings(),
    {
        self.data.l3_cache_handle = t;
    }

    /// Append the string, storing its 1-based index in the `serial_number`
    /// field; a full string table refuses the append and leaves the
    /// structure unchanged.
    pub fn set_serial_number(&mut self, s: &str) -> (r: Result<u8, SmbiosError>)
        ensures
            old(self).spec_strings().len() < 255 ==> r == Ok::<u8, SmbiosError>(
                (old(self).spec_strings().len() + 1) as u8,
            ) && final(self).spec_strings() == old(self).spec_strings().push(s.spec_bytes())
                && final(self).spec_data() == (Type4Data {
                serial_number: (old(self).spec_strings().len() + 1) as u8,
                ..old(self).spec_data()
            }),
            old(self).spec_strings().len() >= 255 ==> r == Err::<u8, SmbiosError>(
                SmbiosError::StringTableFull,
            ) && final(self).spec_strings() == old(self).spec_strings() && final(self).spec_data()
                == old(self).spec_data(),
    {
        match self.strings.push_str(s) {
            Ok(idx) => {
                self.data.serial_number = idx;
                Ok(idx)
            },
            Err(e) => Err(e),
        }
    }

    /// Append the string, storing its 1-based index in the `asset_tag`
    /// field; a full string table refuses the append and leaves the
    /// structure unchanged.
    pub fn set_asset_tag(&mut self, s: &str) -> (r: Result<u8, SmbiosError>)
        ensures
            old(self).spec_strings().len() < 255 ==> r == Ok::<u8, SmbiosError>(
                (old(self).spec_strings().len() + 1) as u8,
            ) && final(self).spec_strings() == old(self).spec_strings().push(s.spec_bytes())
                && final(self).spec_data() == (Type4Data {
                asset_tag: (old(self).spec_strings().len() + 1) as u8,
                ..old(self).spec_data()
            }),
            old(self).spec_strings().len() >= 255 ==> r == Err::<u8, SmbiosError>(
                SmbiosError::StringTableFull,
            ) && final(self).spec_strings() == old(self).spec_strings() && final(self).spec_data()
                == old(self).spec_data(),
    {
        match self.strings.push_str(s) {
            Ok(idx) => {
                self.data.asset_tag = idx;
                Ok(idx)
            },
            Err(e) => Err(e),
        }
    }

    /// Append the string, storing its 1-based index in the `part_number`
    /// field; a full string table refuses the append and leaves the
    /// structure unchanged.
    pub fn set_part_number(&mut self, s: &str) -> (r: Result<u8, SmbiosError>)
        ensures
            old(self).spec_strings().len() < 255 ==> r == Ok::<u8, SmbiosError>(
                (old(self).spec_strings().len() + 1) as u8,
            ) && final(self).spec_strings() == old(self).spec_strings().push(s.spec_bytes())
                && final(self).spec_data() == (Type4Data {
                part_number: (old(self).spec_strings().len() + 1) as u8,
                ..old(self).spec_data()
            }),
            old(self).spec_strings().len() >= 255 ==> r == Err::<u8, SmbiosError>(
                SmbiosError::StringTableFull,
            ) && final(self).spec_strings() == old(self).spec_strings() && final(self).spec_data()
                == old(self).spec_data(),
    {
        match self.strings.push_str(s) {
            Ok(idx) => {
                self.data.part_number = idx;
                Ok(idx)
            },
            Err(e) => Err(e),
        }
    }

    pub fn set_core_count(&mut self, t: u8)
        ensures
            final(self).spec_data() == (Type4Data { core_count: t, ..old(self).spec_data() }),
            final(self).spec_strings() == old(self).spec_strings(),
    {
        self.data.core_count = t;
    }

    pub fn set_core_enabled(&mut self, t: u8)
        ensures
            final(self).spec_data() == (Type4Data { core_enabled: t, ..old(self).spec_data() }),
            final(self).spec_strings() == old(self).spec_strings(),
    {
        self.data.core_enabled = t;
    }

    pub fn set_thread_count(&mut self, t: u8)
        ensures
            final(self).spec_data() == (Type4Data { thread_count: t, ..old(self).spec_data() }),
            final(self).spec_strings() == old(self).spec_strings(),
    {
        self.data.thread_count = t;
    }

    pub fn set_processor_characteristics(&mut self, t: u16)
        ensures
            final(self).spec_data() == (Type4Data { processor_characteristics: t, ..old(self).spec_data() }),
            final(self).spec_strings() == old(self).spec_strings(),
    {
        self.data.processor_characteristics = t;
    }

    pub fn set_processor_family2(&mut self, t: ProcessorFamily2)
        ensures
            final(self).spec_data() == (Type4Data { processor_family2: t, ..old(self).spec_data() }),
            final(self).spec_strings() == old(self).spec_strings(),
    {
        self.data.processor_family2 = t;
    }

    pub fn set_core_count2(&mut self, t: u16)
        ensures
            final(self).spec_data() == (Type4Data { core_count2: t, ..old(self).spec_data() }),
            final(self).spec_strings() == old(self).spec_strings(),
    {
        self.data.core_count2 = t;
    }

    pub fn set_core_enabled2(&mut self, t: u16)
        ensures
            final(self).spec_data() == (Type4Data { core_enabled2: t, ..old(self).spec_data() }),
            final(self).spec_strings() == old(self).spec_strings(),
    {
        self.data.core_enabled2 = t;
    }

    pub fn set_thread_count2(&mut self, t: u16)
        ensures
            final(self).spec_data() == (Type4Data { thread_count2: t, ..old(self).spec_data() }),
            final(self).spec_strings() == old(self).spec_strings(),
    {
        self.data.thread_count2 = t;
    }

    pub fn set_thread_enabled(&mut self, t: u16)
        ensures
            final(self).spec_data() == (Type4Data { thread_enabled: t, ..old(self).spec_data() }),
            final(self).spec_strings() == old(self).spec_strings(),
    {
        self.data.thread_enabled = t;
    }

}

impl SmbiosStructure for ProcessorInformation {
    open spec fn spec_serialized(&self) -> Seq<u8> {
        self.record_bytes() + string_tail(self.spec_strings())
    }

    /// The count stays within the format's bound and every
    /// string-reference field points into the table.
    open spec fn wf(&self) -> bool {
        &&& self.spec_strings().len() <= 255
        &&& string_index_ok(self.spec_data().socket_designation, self.spec_strings())
        &&& string_index_ok(self.spec_data().processor_manufacturer, self.spec_strings())
        &&& string_index_ok(self.spec_data().processor_version, self.spec_strings())
        &&& string_index_ok(self.spec_data().serial_number, self.spec_strings())
        &&& string_index_ok(self.spec_data().asset_tag, self.spec_strings())
        &&& string_index_ok(self.spec_data().part_number, self.spec_strings())
    }

    #[verifier::rlimit(100)]
    fn serialize<S: Sink>(&self, sink: &mut S) {
        sink.byte(4);
        sink.byte(0x32);
        sink.word(self.data.handle);
        sink.byte(self.data.socket_designation);
        sink.byte(self.data.processor_type.code());
        sink.byte(self.data.processor_family.code());
        sink.byte(self.data.processor_manufacturer);
        sink.qword(self.data.processor_id);
        sink.byte(self.data.processor_version);
        proof {
            assert(sink.sunk() =~= old(sink).sunk() + self.record_head());
        }
        let ghost done_1 = sink.sunk();
        sink.byte(self.data.voltage);
        sink.word(self.data.external_clock);
        sink.word(self.data.max_speed);
        sink.word(self.data.current_speed);
        sink.byte(self.data.status);
        sink.byte(self.data.processor_ugprade.code());
        sink.word(self.data.l1_cache_handle);
        sink.word(self.data.l2_cache_handle);
        sink.word(self.data.l3_cache_handle);
        proof {
            assert(sink.sunk() =~= done_1 + self.record_mid());
        }
        let ghost done_2 = sink.sunk();
        sink.byte(self.data.serial_number);
        sink.byte(self.data.asset_tag);
        sink.byte(self.data.part_number);
        sink.byte(self.data.core_count);
        sink.byte(self.data.core_enabled);
        sink.byte(self.data.thread_count);
        sink.word(self.data.processor_characteristics);
        sink.word(self.data.processor_family2.code());
        sink.word(self.data.core_count2);
        sink.word(self.data.core_enabled2);
        sink.word(self.data.thread_count2);
        sink.word(self.data.thread_enabled);
        proof {
            assert(sink.sunk() =~= done_2 + self.record_tail());
        }
        let ghost done_3 = sink.sunk();
        let ghost record_done = sink.sunk();
        proof {
            assert(record_done =~= old(sink).sunk() + self.record_bytes());
        }
        self.strings.emit_tail(sink);
        proof {
            assert(sink.sunk() == record_done + string_tail(self.spec_strings()));
            assert(sink.sunk() =~= old(sink).sunk() + self.spec_serialized());
        }
    }
}

/// The fixed record of the processor information structure is always
/// 0x32 bytes — its spec constant, also held by its length byte —
/// independent of any strings added.
pub proof fn lemma_type4_record_size(x: &ProcessorInformation)
    ensures
        x.record_bytes().len() == 0x32,
        x.record_bytes()[1] == 0x32,
{
}

/// Fixed record of the processor additional-information structure.
#[derive(Clone, Copy, Debug)]
pub struct RiscvType44Data {
    pub handle: u16,
    pub referenced_handle: u16,
    pub revision: u16,
    pub structure_length: u8,
    pub hart_id: u128,
    pub boot_hart: u8,
    pub mvendorid: u128,
    pub marchid: u128,
    pub mimplid: u128,
    pub isa_supported: u32,
    pub privilege_level_supported: u8,
    pub m_exception_delegation: u128,
    pub m_interrupt_delegation: u128,
    pub xlen: Xlen,
    pub mxlen: Xlen,
    pub reserved: u8,
    pub sxlen: Xlen,
    pub uxlen: Xlen,
}

pub struct RiscvProcessorAdditionalInformation {
    data: RiscvType44Data,
    strings: StringTable,
}

impl RiscvProcessorAdditionalInformation {
    pub closed spec fn spec_data(&self) -> RiscvType44Data {
        self.data
    }

    pub closed spec fn spec_strings(&self) -> Seq<Seq<u8>> {
        self.strings@
    }

    /// Reference, revision and hart identification fields.
    pub open spec fn record_head(&self) -> Seq<u8> {
        let d = self.spec_data();
        seq![44u8, 0x74u8] + le16(d.handle) + le16(d.referenced_handle) + le16(d.revision) + seq![d.structure_length] + le128(d.hart_id) + seq![d.boot_hart]
    }

    /// Machine register and delegation fields.
    pub open spec fn record_mid(&self) -> Seq<u8> {
        let d = self.spec_data();
        le128(d.mvendorid) + le128(d.marchid) + le128(d.mimplid) + le32(d.isa_supported) + seq![d.privilege_level_supported] + le128(d.m_exception_delegation) + le128(d.m_interrupt_delegation)
    }

    /// Register width fields.
    pub open spec fn record_tail(&self) -> Seq<u8> {
        let d = self.spec_data();
        seq![d.xlen.spec_code(), d.mxlen.spec_code(), d.reserved, d.sxlen.spec_code(), d.uxlen.spec_code()]
    }

    /// The 0x74 fixed-record bytes: type id, length, handle, then the
    /// schema fields in declared order.
    pub open spec fn record_bytes(&self) -> Seq<u8> {
        self.record_head() + self.record_mid() + self.record_tail()
    }

    /// All fields start at their type-defined defaults.
    pub fn new(handle: u16) -> (r: Self)
        ensures
            r.spec_data() == (RiscvType44Data {
                handle,
                referenced_handle: 0u16,
                revision: 0u16,
                structure_length: 0u8,
                hart_id: 0u128,
                boot_hart: 0u8,
                mvendorid: 0u128,
                marchid: 0u128,
                mimplid: 0u128,
                isa_supported: 0u32,
                privilege_level_supported: 0u8,
                m_exception_delegation: 0u128,
                m_interrupt_delegation: 0u128,
                xlen: Xlen::Xlen64,
                mxlen: Xlen::Xlen64,
                reserved: 0u8,
                sxlen: Xlen::Xlen64,
                uxlen: Xlen::Xlen64,
            }),
            r.spec_strings() == Seq::<Seq<u8>>::empty(),
    {
        let r = RiscvProcessorAdditionalInformation {
            data: RiscvType44Data {
                handle,
                referenced_handle: 0,
                revision: 0,
                structure_length: 0,
                hart_id: 0,
                boot_hart: 0,
                mvendorid: 0,
                marchid: 0,
                mimplid: 0,
                isa_supported: 0,
                privilege_level_supported: 0,
                m_exception_delegation: 0,
                m_interrupt_delegation: 0,
                xlen: Xlen::Xlen64,
                mxlen: Xlen::Xlen64,
                reserved: 0,
                sxlen: Xlen::Xlen64,
                uxlen: Xlen::Xlen64,
            },
            strings: StringTable::new(),
        };
        r
    }

    pub fn get_handle(&self) -> (r: u16)
        ensures
            r == self.spec_data().handle,
    {
        self.data.handle
    }

    pub fn set_referenced_handle(&mut self, t: u16)
        ensures
            final(self).spec_data() == (RiscvType44Data { referenced_handle: t, ..old(self).spec_data() }),
            final(self).spec_strings() == old(self).spec_strings(),
    {
        self.data.referenced_handle = t;
    }

    pub fn set_revision(&mut self, t: u16)
        ensures
            final(self).spec_data() == (RiscvType44Data { revision: t, ..old(self).spec_data() }),
            final(self).spec_strings() == old(self).spec_strings(),
    {
        self.data.revision = t;
    }

    pub fn set_structure_length(&mut self, t: u8)
        ensures
            final(self).spec_data() == (RiscvType44Data { structure_length: t, ..old(self).spec_data() }),
            final(self).spec_strings() == old(self).spec_strings(),
    {
        self.data.structure_length = t;
    }

    pub fn set_hart_id(&mut self, t: u128)
        ensures
            final(self).spec_data() == (RiscvType44Data { hart_id: t, ..old(self).spec_data() }),
            final(self).spec_strings() == old(self).spec_strings(),
    {
        self.data.hart_id = t;
    }

    pub fn set_boot_hart(&mut self, t: u8)
        ensures
            final(self).spec_data() == (RiscvType44Data { boot_hart: t, ..old(self).spec_data() }),
            final(self).spec_strings() == old(self).spec_strings(),
    {
        self.data.boot_hart = t;
    }

    pub fn set_mvendorid(&mut self, t: u128)
        ensures
            final(self).spec_data() == (RiscvType44Data { mvendorid: t, ..old(self).spec_data() }),
            final(self).spec_strings() == old(self).spec_strings(),
    {
        self.data.mvendorid = t;
    }

    pub fn set_marchid(&mut self, t: u128)
        ensures
            final(self).spec_data() == (RiscvType44Data { marchid: t, ..old(self).spec_data() }),
            final(self).spec_strings() == old(self).spec_strings(),
    {
        self.data.marchid = t;
    }

    pub fn set_mimplid(&mut self, t: u128)
        ensures
            final(self).spec_data() == (RiscvType44Data { mimplid: t, ..old(self).spec_data() }),
            final(self).spec_strings() == old(self).spec_strings(),
    {
        self.data.mimplid = t;
    }

    pub fn set_isa_supported(&mut self, t: u32)
        ensures
            final(self).spec_data() == (RiscvType44Data { isa_supported: t, ..old(self).spec_data() }),
            final(self).spec_strings() == old(self).spec_strings(),
    {
        self.data.isa_supported = t;
    }

    pub fn set_privilege_level_supported(&mut self, t: u8)
        ensures
            final(self).spec_data() == (RiscvType44Data { privilege_level_supported: t, ..old(self).spec_data() }),
            final(self).spec_strings() == old(self).spec_strings(),
    {
        self.data.privilege_level_supported = t;
    }

    pub fn set_m_exception_delegation(&mut self, t: u128)
        ensures
            final(self).spec_data() == (RiscvType44Data { m_exception_delegation: t, ..old(self).spec_data() }),
            final(self).spec_strings() == old(self).spec_strings(),
    {
        self.data.m_exception_delegation = t;
    }

    pub fn set_m_interrupt_delegation(&mut self, t: u128)
        ensures
            final(self).spec_data() == (RiscvType44Data { m_interrupt_delegation: t, ..old(self).spec_data() }),
            final(self).spec_strings() == old(self).spec_strings(),
    {
        self.data.m_interrupt_delegation = t;
    }

    pub fn set_xlen(&mut self, t: Xlen)
        ensures
            final(self).spec_data() == (RiscvType44Data { xlen: t, ..old(self).spec_data() }),
            final(self).spec_strings() == old(self).spec_strings(),
    {
        self.data.xlen = t;
    }

    pub fn set_mxlen(&mut self, t: Xlen)
        ensures
            final(self).spec_data() == (RiscvType44Data { mxlen: t, ..old(self).spec_data() }),
            final(self).spec_strings() == old(self).spec_strings(),
    {
        self.data.mxlen = t;
    }

    pub fn set_reserved(&mut self, t: u8)
        ensures
            final(self).spec_data() == (RiscvType44Data { reserved: t, ..old(self).spec_data() }),
            final(self).spec_strings() == old(self).spec_strings(),
    {
        self.data.reserved = t;
    }

    pub fn set_sxlen(&mut self, t: Xlen)
        ensures
            final(self).spec_data() == (RiscvType44Data { sxlen: t, ..old(self).spec_data() }),
            final(self).spec_strings() == old(self).spec_strings(),
    {
        self.data.sxlen = t;
    }

    pub fn set_uxlen(&mut self, t: Xlen)
        ensures
            final(self).spec_data() == (RiscvType44Data { uxlen: t, ..old(self).spec_data() }),
            final(self).spec_strings() == old(self).spec_strings(),
    {
        self.data.uxlen = t;
    }

}

impl SmbiosStructure for RiscvProcessorAdditionalInformation {
    open spec fn spec_serialized(&self) -> Seq<u8> {
        self.record_bytes() + string_tail(self.spec_strings())
    }

    open spec fn wf(&self) -> bool {
        self.spec_strings().len() <= 255
    }

    #[verifier::rlimit(100)]
    fn serialize<S: Sink>(&self, sink: &mut S) {
        sink.byte(44);
        sink.byte(0x74);
        sink.word(self.data.handle);
        sink.word(self.data.referenced_handle);
        sink.word(self.data.revision);
        sink.byte(self.data.structure_length);
        crate::wire::emit_u128(sink, self.data.hart_id);
        sink.byte(self.data.boot_hart);
        proof {
            assert(sink.sunk() =~= old(sink).sunk() + self.record_head());
        }
        let ghost done_1 = sink.sunk();
        crate::wire::emit_u128(sink, self.data.mvendorid);
        crate::wire::emit_u128(sink, self.data.marchid);
        crate::wire::emit_u128(sink, self.data.mimplid);
        sink.dword(self.data.isa_supported);
        sink.byte(self.data.privilege_level_supported);
        crate::wire::emit_u128(sink, self.data.m_exception_delegation);
        crate::wire::emit_u128(sink, self.data.m_interrupt_delegation);
        proof {
            assert(sink.sunk() =~= done_1 + self.record_mid());
        }
        let ghost done_2 = sink.sunk();
        sink.byte(self.data.xlen.code());
        sink.byte(self.data.mxlen.code());
        sink.byte(self.data.reserved);
        sink.byte(self.data.sxlen.code());
        sink.byte(self.data.uxlen.code());
        proof {
            assert(sink.sunk() =~= done_2 + self.record_tail());
        }
        let ghost done_3 = sink.sunk();
        let ghost record_done = sink.sunk();
        proof {
            assert(record_done =~= old(sink).sunk() + self.record_bytes());
        }
        self.strings.emit_tail(sink);
        proof {
            assert(sink.sunk() == record_done + string_tail(self.spec_strings()));
            assert(sink.sunk() =~= old(sink).sunk() + self.spec_serialized());
        }
    }
}

/// The fixed record of the processor additional-information structure is always
/// 0x74 bytes — its spec constant, also held by its length byte —
/// independent of any strings added.
pub proof fn lemma_type44_record_size(x: &RiscvProcessorAdditionalInformation)
    ensures
        x.record_bytes().len() == 0x74,
        x.record_bytes()[1] == 0x74,
{
}

} // verus!
