//! The cache information structure: one processor cache's configuration,
//! sizes, memory types and associativity.

use crate::error::SmbiosError;
use crate::strtab::{string_index_ok, string_tail, StringTable};
use crate::types::{Associativity, CacheConfiguration, EccType, SramType, SystemCacheType};
use crate::wire::{le16, le32};
use crate::{Sink, SmbiosStructure};
use vstd::prelude::*;
use vstd::string::StringSliceAdditionalSpecFns;

verus! {

/// Fixed record of the cache information structure.
#[derive(Clone, Copy, Debug)]
pub struct Type7Data {
    pub handle: u16,
    pub socket_designation: u8,
    pub cache_configuration: CacheConfiguration,
    pub maximum_cache_size: u16,
    pub installed_size: u16,
    pub supported_sram_type: SramType,
    pub current_sram_type: SramType,
    pub cache_speed: u8,
    pub error_correction_type: EccType,
    pub system_cache_type: SystemCacheType,
    pub associativity: Associativity,
    pub maximum_cache_size2: u32,
    pub installed_cache_size2: u32,
}

pub struct CacheInformation {
    data: Type7Data,
    strings: StringTable,
}

impl CacheInformation {
    pub closed spec fn spec_data(&self) -> Type7Data {
        self.data
    }

    pub closed spec fn spec_strings(&self) -> Seq<Seq<u8>> {
        self.strings@
    }

    /// The 0x1b fixed-record bytes: type id, length, handle, then the
    /// schema fields in declared order.
    pub open spec fn record_bytes(&self) -> Seq<u8> {
        let d = self.spec_data();
        seq![7u8, 0x1bu8] + le16(d.handle) + seq![d.socket_designation] + le16(d.cache_configuration.bits) + le16(d.maximum_cache_size) + le16(d.installed_size) + le16(d.supported_sram_type.spec_code()) + le16(d.current_sram_type.spec_code()) + seq![d.cache_speed, d.error_correction_type.spec_code(), d.system_cache_type.spec_code(), d.associativity.spec_code()] + le32(d.maximum_cache_size2) + le32(d.installed_cache_size2)
    }

    /// All fields start at their type-defined defaults.
    pub fn new(handle: u16) -> (r: Self)
        ensures
            r.spec_data() == (Type7Data {
                handle,
                socket_designation: 0u8,
                cache_configuration: (CacheConfiguration { bits: 0u16 }),
                maximum_cache_size: 0u16,
                installed_size: 0u16,
                supported_sram_type: SramType::Unknown,
                current_sram_type: SramType::Unknown,
                cache_speed: 0u8,
                error_correction_type: EccType::Unknown,
                system_cache_type: SystemCacheType::Unknown,
                associativity: Associativity::Unknown,
                maximum_cache_size2: 0u32,
                installed_cache_size2: 0u32,
            }),
            r.spec_strings() == Seq::<Seq<u8>>::empty(),
    {
        let r = CacheInformation {
            data: Type7Data {
                handle,
                socket_designation: 0,
                cache_configuration: CacheConfiguration { bits: 0 },
                maximum_cache_size: 0,
                installed_size: 0,
                supported_sram_type: SramType::Unknown,
                current_sram_type: SramType::Unknown,
                cache_speed: 0,
                error_correction_type: EccType::Unknown,
                system_cache_type: SystemCacheType::Unknown,
                associativity: Associativity::Unknown,
                maximum_cache_size2: 0,
                installed_cache_size2: 0,
            },
            strings: StringTable::new(),
        };
        r
    }

    pub fn get_handle(&self) -> (r: u16)
        ensures
            r == self.spec_data().handle,
    {
        self.data.handle
    }

    /// Append the string, storing its 1-based index in the `socket_designation`
    /// field; a full string table refuses the append and leaves the
    /// structure unchanged.
    pub fn set_socket_designation(&mut self, s: &str) -> (r: Result<u8, SmbiosError>)
        ensures
            old(self).spec_strings().len() < 255 ==> r == Ok::<u8, SmbiosError>(
                (old(self).spec_strings().len() + 1) as u8,
            ) && final(self).spec_strings() == old(self).spec_strings().push(s.spec_bytes())
                && final(self).spec_data() == (Type7Data {
                socket_designation: (old(self).spec_strings().len() + 1) as u8,
                ..old(self).spec_data()
            }),
            old(self).spec_strings().len() >= 255 ==> r == Err::<u8, SmbiosError>(
                SmbiosError::StringTableFull,
            ) && final(self).spec_strings() == old(self).spec_strings() && final(self).spec_data()
                == old(self).spec_data(),
    {
        match self.strings.push_str(s) {
            Ok(idx) => {
                self.data.socket_designation = idx;
                Ok(idx)
            },
            Err(e) => Err(e),
        }
    }

    pub fn set_cache_configuration(&mut self, t: CacheConfiguration)
        ensures
            final(self).spec_data() == (Type7Data { cache_configuration: t, ..old(self).spec_data() }),
            final(self).spec_strings() == old(self).spec_strings(),
    {
        self.data.cache_configuration = t;
    }

    pub fn set_maximum_cache_size(&mut self, t: u16)
        ensures
            final(self).spec_data() == (Type7Data { maximum_cache_size: t, ..old(self).spec_data() }),
            final(self).spec_strings() == old(self).spec_strings(),
    {
        self.data.maximum_cache_size = t;
    }

    pub fn set_installed_size(&mut self, t: u16)
        ensures
            final(self).spec_data() == (Type7Data { installed_size: t, ..old(self).spec_data() }),
            final(self).spec_strings() == old(self).spec_strings(),
    {
        self.data.installed_size = t;
    }

    pub fn set_supported_sram_type(&mut self, t: SramType)
        ensures
            final(self).spec_data() == (Type7Data { supported_sram_type: t, ..old(self).spec_data() }),
            final(self).spec_strings() == old(self).spec_strings(),
    {
        self.data.supported_sram_type = t;
    }

    pub fn set_current_sram_type(&mut self, t: SramType)
        ensures
            final(self).spec_data() == (Type7Data { current_sram_type: t, ..old(self).spec_data() }),
            final(self).spec_strings() == old(self).spec_strings(),
    {
        self.data.current_sram_type = t;
    }

    pub fn set_cache_speed(&mut self, t: u8)
        ensures
            final(self).spec_data() == (Type7Data { cache_speed: t, ..old(self).spec_data() }),
            final(self).spec_strings() == old(self).spec_strings(),
    {
        self.data.cache_speed = t;
    }

    pub fn set_error_correction_type(&mut self, t: EccType)
        ensures
            final(self).spec_data() == (Type7Data { error_correction_type: t, ..old(self).spec_data() }),
            final(self).spec_strings() == old(self).spec_strings(),
    {
        self.data.error_correction_type = t;
    }

    pub fn set_system_cache_type(&mut self, t: SystemCacheType)
        ensures
            final(self).spec_data() == (Type7Data { system_cache_type: t, ..old(self).spec_data() }),
            final(self).spec_strings() == old(self).spec_strings(),
    {
        self.data.system_cache_type = t;
    }

    pub fn set_associativity(&mut self, t: Associativity)
        ensures
            final(self).spec_data() == (Type7Data { associativity: t, ..old(self).spec_data() }),
            final(self).spec_strings() == old(self).spec_strings(),
    {
        self.data.associativity = t;
    }

    pub fn set_maximum_cache_size2(&mut self, t: u32)
        ensures
            final(self).spec_data() == (Type7Data { maximum_cache_size2: t, ..old(self).spec_data() }),
            final(self).spec_strings() == old(self).spec_strings(),
    {
        self.data.maximum_cache_size2 = t;
    }

    pub fn set_installed_cache_size2(&mut self, t: u32)
        ensures
            final(self).spec_data() == (Type7Data { installed_cache_size2: t, ..old(self).spec_data() }),
            final(self).spec_strings() == old(self).spec_strings(),
    {
        self.data.installed_cache_size2 = t;
    }

}

impl SmbiosStructure for CacheInformation {
    open spec fn spec_serialized(&self) -> Seq<u8> {
        self.record_bytes() + string_tail(self.spec_strings())
    }

    /// The count stays within the format's bound and every
    /// string-reference field points into the table.
    open spec fn wf(&self) -> bool {
        &&& self.spec_strings().len() <= 255
        &&& string_index_ok(self.spec_data().socket_designation, self.spec_strings())
    }

    fn serialize<S: Sink>(&self, sink: &mut S) {
        sink.byte(7);
        sink.byte(0x1b);
        sink.word(self.data.handle);
        sink.byte(self.data.socket_designation);
        sink.word(self.data.cache_configuration.bits);
        sink.word(self.data.maximum_cache_size);
        sink.word(self.data.installed_size);
        sink.word(self.data.supported_sram_type.code());
        sink.word(self.data.current_sram_type.code());
        sink.byte(self.data.cache_speed);
        sink.byte(self.data.error_correction_type.code());
        sink.byte(self.data.system_cache_type.code());
        sink.byte(self.data.associativity.code());
        sink.dword(self.data.maximum_cache_size2);
        sink.dword(self.data.installed_cache_size2);
        let ghost record_done = sink.sunk();
        proof {
            assert(record_done =~= old(sink).sunk() + self.record_bytes());
        }
        self.strings.emit_tail(sink);
        proof {
            assert(sink.sunk() == record_done + string_tail(self.spec_strings()));
            assert(sink.sunk() =~= old(sink).sunk() + self.spec_serialized());
        }
    }
}

/// The fixed record of the cache information structure is always
/// 0x1b bytes — its spec constant, also held by its length byte —
/// independent of any strings added.
pub proof fn lemma_type7_record_size(x: &CacheInformation)
    ensures
        x.record_bytes().len() == 0x1b,
        x.record_bytes()[1] == 0x1b,
{
}

} // verus!
