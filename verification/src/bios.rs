//! The firmware information structure: vendor, version and release
//! identification strings beside the firmware's characteristic flags.

use crate::error::SmbiosError;
use crate::strtab::{string_index_ok, string_tail, StringTable};
use crate::wire::{le16, le64};
use crate::{Sink, SmbiosStructure};
use vstd::prelude::*;
use vstd::string::StringSliceAdditionalSpecFns;

verus! {

/// Fixed record of the firmware information structure.
#[derive(Clone, Copy, Debug)]
pub struct Type0Data {
    pub handle: u16,
    pub vendor: u8,
    pub bios_version: u8,
    pub bios_starting_address_segment: u16,
    pub bios_release_date: u8,
    pub bios_rom_size: u8,
    pub bios_characteristics: u64,
    pub bios_characteristics_ex1: u8,
    pub bios_characteristics_ex2: u8,
}

pub struct BiosInformation {
    data: Type0Data,
    strings: StringTable,
}

impl BiosInformation {
    pub closed spec fn spec_data(&self) -> Type0Data {
        self.data
    }

    pub closed spec fn spec_strings(&self) -> Seq<Seq<u8>> {
        self.strings@
    }

    /// The 0x14 fixed-record bytes: type id, length, handle, then the
    /// schema fields in declared order.
    pub open spec fn record_bytes(&self) -> Seq<u8> {
        let d = self.spec_data();
        seq![0u8, 0x14u8] + le16(d.handle) + seq![d.vendor, d.bios_version] + le16(d.bios_starting_address_segment) + seq![d.bios_release_date, d.bios_rom_size] + le64(d.bios_characteristics) + seq![d.bios_characteristics_ex1, d.bios_characteristics_ex2]
    }

    /// All fields start at their type-defined defaults.
    pub fn new(handle: u16) -> (r: Self)
        ensures
            r.spec_data() == (Type0Data {
                handle,
                vendor: 0u8,
                bios_version: 0u8,
                bios_starting_address_segment: 0u16,
                bios_release_date: 0u8,
                bios_rom_size: 0u8,
                bios_characteristics: 0u64,
                bios_characteristics_ex1: 0u8,
                bios_characteristics_ex2: 0u8,
            }),
            r.spec_strings() == Seq::<Seq<u8>>::empty(),
    {
        let r = BiosInformation {
            data: Type0Data {
                handle,
                vendor: 0,
                bios_version: 0,
                bios_starting_address_segment: 0,
                bios_release_date: 0,
                bios_rom_size: 0,
                bios_characteristics: 0,
                bios_characteristics_ex1: 0,
                bios_characteristics_ex2: 0,
            },
            strings: StringTable::new(),
        };
        r
    }

    pub fn get_handle(&self) -> (r: u16)
        ensures
            r == self.spec_data().handle,
    {
        self.data.handle
    }

    /// Append the string, storing its 1-based index in the `vendor`
    /// field; a full string table refuses the append and leaves the
    /// structure unchanged.
    pub fn set_vendor(&mut self, s: &str) -> (r: Result<u8, SmbiosError>)
        ensures
            old(self).spec_strings().len() < 255 ==> r == Ok::<u8, SmbiosError>(
                (old(self).spec_strings().len() + 1) as u8,
            ) && final(self).spec_strings() == old(self).spec_strings().push(s.spec_bytes())
                && final(self).spec_data() == (Type0Data {
                vendor: (old(self).spec_strings().len() + 1) as u8,
                ..old(self).spec_data()
            }),
            old(self).spec_strings().len() >= 255 ==> r == Err::<u8, SmbiosError>(
                SmbiosError::StringTableFull,
            ) && final(self).spec_strings() == old(self).spec_strings() && final(self).spec_data()
                == old(self).spec_data(),
    {
        match self.strings.push_str(s) {
            Ok(idx) => {
                self.data.vendor = idx;
                Ok(idx)
            },
            Err(e) => Err(e),
        }
    }

    /// Append the string, storing its 1-based index in the `bios_version`
    /// field; a full string table refuses the append and leaves the
    /// structure unchanged.
    pub fn set_bios_version(&mut self, s: &str) -> (r: Result<u8, SmbiosError>)
        ensures
            old(self).spec_strings().len() < 255 ==> r == Ok::<u8, SmbiosError>(
                (old(self).spec_strings().len() + 1) as u8,
            ) && final(self).spec_strings() == old(self).spec_strings().push(s.spec_bytes())
                && final(self).spec_data() == (Type0Data {
                bios_version: (old(self).spec_strings().len() + 1) as u8,
                ..old(self).spec_data()
            }),
            old(self).spec_strings().len() >= 255 ==> r == Err::<u8, SmbiosError>(
                SmbiosError::StringTableFull,
            ) && final(self).spec_strings() == old(self).spec_strings() && final(self).spec_data()
                == old(self).spec_data(),
    {
        match self.strings.push_str(s) {
            Ok(idx) => {
                self.data.bios_version = idx;
                Ok(idx)
            },
            Err(e) => Err(e),
        }
    }

    pub fn set_bios_starting_address_segment(&mut self, t: u16)
        ensures
            final(self).spec_data() == (Type0Data { bios_starting_address_segment: t, ..old(self).spec_data() }),
            final(self).spec_strings() == old(self).spec_strings(),
    {
        self.data.bios_starting_address_segment = t;
    }

    /// Append the string, storing its 1-based index in the `bios_release_date`
    /// field; a full string table refuses the append and leaves the
    /// structure unchanged.
    pub fn set_bios_release_date(&mut self, s: &str) -> (r: Result<u8, SmbiosError>)
        ensures
            old(self).spec_strings().len() < 255 ==> r == Ok::<u8, SmbiosError>(
                (old(self).spec_strings().len() + 1) as u8,
            ) && final(self).spec_strings() == old(self).spec_strings().push(s.spec_bytes())
                && final(self).spec_data() == (Type0Data {
                bios_release_date: (old(self).spec_strings().len() + 1) as u8,
                ..old(self).spec_data()
            }),
            old(self).spec_strings().len() >= 255 ==> r == Err::<u8, SmbiosError>(
                SmbiosError::StringTableFull,
            ) && final(self).spec_strings() == old(self).spec_strings() && final(self).spec_data()
                == old(self).spec_data(),
    {
        match self.strings.push_str(s) {
            Ok(idx) => {
                self.data.bios_release_date = idx;
                Ok(idx)
            },
            Err(e) => Err(e),
        }
    }

    pub fn set_bios_rom_size(&mut self, t: u8)
        ensures
            final(self).spec_data() == (Type0Data { bios_rom_size: t, ..old(self).spec_data() }),
            final(self).spec_strings() == old(self).spec_strings(),
    {
        self.data.bios_rom_size = t;
    }

    pub fn set_bios_characteristics(&mut self, t: u64)
        ensures
            final(self).spec_data() == (Type0Data { bios_characteristics: t, ..old(self).spec_data() }),
            final(self).spec_strings() == old(self).spec_strings(),
    {
        self.data.bios_characteristics = t;
    }

    pub fn set_bios_characteristics_ex1(&mut self, t: u8)
        ensures
            final(self).spec_data() == (Type0Data { bios_characteristics_ex1: t, ..old(self).spec_data() }),
            final(self).spec_strings() == old(self).spec_strings(),
    {
        self.data.bios_characteristics_ex1 = t;
    }

    pub fn set_bios_characteristics_ex2(&mut self, t: u8)
        ensures
            final(self).spec_data() == (Type0Data { bios_characteristics_ex2: t, ..old(self).spec_data() }),
            final(self).spec_strings() == old(self).spec_strings(),
    {
        self.data.bios_characteristics_ex2 = t;
    }

}

impl SmbiosStructure for BiosInformation {
    open spec fn spec_serialized(&self) -> Seq<u8> {
        self.record_bytes() + string_tail(self.spec_strings())
    }

    /// The count stays within the format's bound and every
    /// string-reference field points into the table.
    open spec fn wf(&self) -> bool {
        &&& self.spec_strings().len() <= 255
        &&& string_index_ok(self.spec_data().vendor, self.spec_strings())
        &&& string_index_ok(self.spec_data().bios_version, self.spec_strings())
        &&& string_index_ok(self.spec_data().bios_release_date, self.spec_strings())
    }

    fn serialize<S: Sink>(&self, sink: &mut S) {
        sink.byte(0);
        sink.byte(0x14);
        sink.word(self.data.handle);
        sink.byte(self.data.vendor);
        sink.byte(self.data.bios_version);
        sink.word(self.data.bios_starting_address_segment);
        sink.byte(self.data.bios_release_date);
        sink.byte(self.data.bios_rom_size);
        sink.qword(self.data.bios_characteristics);
        sink.byte(self.data.bios_characteristics_ex1);
        sink.byte(self.data.bios_characteristics_ex2);
        let ghost record_done = sink.sunk();
        proof {
            assert(record_done =~= old(sink).sunk() + self.record_bytes());
        }
        self.strings.emit_tail(sink);
        proof {
            assert(sink.sunk() == record_done + string_tail(self.spec_strings()));
            assert(sink.sunk() =~= old(sink).sunk() + self.spec_serialized());
        }
    }
}

/// The fixed record of the firmware information structure is always
/// 0x14 bytes — its spec constant, also held by its length byte —
/// independent of any strings added.
pub proof fn lemma_type0_record_size(x: &BiosInformation)
    ensures
        x.record_bytes().len() == 0x14,
        x.record_bytes()[1] == 0x14,
{
}

} // verus!
