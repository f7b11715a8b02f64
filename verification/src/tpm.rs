//! The TPM device structure: vendor id, specification and firmware
//! versions, and the device's characteristic flags.

use crate::error::SmbiosError;
use crate::strtab::{string_index_ok, string_tail, StringTable};
use crate::wire::{le16, le32, le64};
use crate::{Sink, SmbiosStructure};
use vstd::prelude::*;
use vstd::string::StringSliceAdditionalSpecFns;

verus! {

/// Fixed record of the TPM device structure.
#[derive(Clone, Copy, Debug)]
pub struct Type43Data {
    pub handle: u16,
    pub vendor_id: [u8; 4],
    pub major_spec_version: u8,
    pub minor_spec_version: u8,
    pub firmware_version1: u32,
    pub firmware_version2: u32,
    pub description: u8,
    pub characteristics: u64,
    pub oem_defined: u32,
}

pub struct TpmDevice {
    data: Type43Data,
    strings: StringTable,
}

impl TpmDevice {
    pub closed spec fn spec_data(&self) -> Type43Data {
        self.data
    }

    pub closed spec fn spec_strings(&self) -> Seq<Seq<u8>> {
        self.strings@
    }

    /// The 0x1f fixed-record bytes: type id, length, handle, then the
    /// schema fields in declared order.
    pub open spec fn record_bytes(&self) -> Seq<u8> {
        let d = self.spec_data();
        seq![43u8, 0x1fu8] + le16(d.handle) + d.vendor_id@ + seq![d.major_spec_version, d.minor_spec_version] + le32(d.firmware_version1) + le32(d.firmware_version2) + seq![d.description] + le64(d.characteristics) + le32(d.oem_defined)
    }

    /// All fields start at their type-defined defaults.
    pub fn new(handle: u16) -> (r: Self)
        ensures
            r.spec_data() == (Type43Data {
                handle,
                vendor_id: r.spec_data().vendor_id,
                major_spec_version: 0u8,
                minor_spec_version: 0u8,
                firmware_version1: 0u32,
                firmware_version2: 0u32,
                description: 0u8,
                characteristics: 0u64,
                oem_defined: 0u32,
            }),
            r.spec_data().vendor_id@ == Seq::<u8>::new(4, |i: int| 0u8),
            r.spec_strings() == Seq::<Seq<u8>>::empty(),
    {
        let r = TpmDevice {
            data: Type43Data {
                handle,
                vendor_id: [0; 4],
                major_spec_version: 0,
                minor_spec_version: 0,
                firmware_version1: 0,
                firmware_version2: 0,
                description: 0,
                characteristics: 0,
                oem_defined: 0,
            },
            strings: StringTable::new(),
        };
        proof {
            assert(r.data.vendor_id@ =~= Seq::<u8>::new(4, |i: int| 0u8));
        }
        r
    }

    pub fn get_handle(&self) -> (r: u16)
        ensures
            r == self.spec_data().handle,
    {
        self.data.handle
    }

    pub fn set_vendor_id(&mut self, t: [u8; 4])
        ensures
            final(self).spec_data() == (Type43Data { vendor_id: t, ..old(self).spec_data() }),
            final(self).spec_strings() == old(self).spec_strings(),
    {
        self.data.vendor_id = t;
    }

    pub fn set_major_spec_version(&mut self, t: u8)
        ensures
            final(self).spec_data() == (Type43Data { major_spec_version: t, ..old(self).spec_data() }),
            final(self).spec_strings() == old(self).spec_strings(),
    {
        self.data.major_spec_version = t;
    }

    pub fn set_minor_spec_version(&mut self, t: u8)
        ensures
            final(self).spec_data() == (Type43Data { minor_spec_version: t, ..old(self).spec_data() }),
            final(self).spec_strings() == old(self).spec_strings(),
    {
        self.data.minor_spec_version = t;
    }

    pub fn set_firmware_version1(&mut self, t: u32)
        ensures
            final(self).spec_data() == (Type43Data { firmware_version1: t, ..old(self).spec_data() }),
            final(self).spec_strings() == old(self).spec_strings(),
    {
        self.data.firmware_version1 = t;
    }

    pub fn set_firmware_version2(&mut self, t: u32)
        ensures
            final(self).spec_data() == (Type43Data { firmware_version2: t, ..old(self).spec_data() }),
            final(self).spec_strings() == old(self).spec_strings(),
    {
        self.data.firmware_version2 = t;
    }

    /// Append the string, storing its 1-based index in the `description`
    /// field; a full string table refuses the append and leaves the
    /// structure unchanged.
    pub fn set_description(&mut self, s: &str) -> (r: Result<u8, SmbiosError>)
        ensures
            old(self).spec_strings().len() < 255 ==> r == Ok::<u8, SmbiosError>(
                (old(self).spec_strings().len() + 1) as u8,
            ) && final(self).spec_strings() == old(self).spec_strings().push(s.spec_bytes())
                && final(self).spec_data() == (Type43Data {
                description: (old(self).spec_strings().len() + 1) as u8,
                ..old(self).spec_data()
            }),
            old(self).spec_strings().len() >= 255 ==> r == Err::<u8, SmbiosError>(
                SmbiosError::StringTableFull,
            ) && final(self).spec_strings() == old(self).spec_strings() && final(self).spec_data()
                == old(self).spec_data(),
    {
        match self.strings.push_str(s) {
            Ok(idx) => {
                self.data.description = idx;
                Ok(idx)
            },
            Err(e) => Err(e),
        }
    }

    pub fn set_characteristics(&mut self, t: u64)
        ensures
            final(self).spec_data() == (Type43Data { characteristics: t, ..old(self).spec_data() }),
            final(self).spec_strings() == old(self).spec_strings(),
    {
        self.data.characteristics = t;
    }

    pub fn set_oem_defined(&mut self, t: u32)
        ensures
            final(self).spec_data() == (Type43Data { oem_defined: t, ..old(self).spec_data() }),
            final(self).spec_strings() == old(self).spec_strings(),
    {
        self.data.oem_defined = t;
    }

}

impl SmbiosStructure for TpmDevice {
    open spec fn spec_serialized(&self) -> Seq<u8> {
        self.record_bytes() + string_tail(self.spec_strings())
    }

    /// The count stays within the format's bound and every
    /// string-reference field points into the table.
    open spec fn wf(&self) -> bool {
        &&& self.spec_strings().len() <= 255
        &&& string_index_ok(self.spec_data().description, self.spec_strings())
    }

    fn serialize<S: Sink>(&self, sink: &mut S) {
        sink.byte(43);
        sink.byte(0x1f);
        sink.word(self.data.handle);
        sink.vec(vstd::array::array_as_slice(&self.data.vendor_id));
        sink.byte(self.data.major_spec_version);
        sink.byte(self.data.minor_spec_version);
        sink.dword(self.data.firmware_version1);
        sink.dword(self.data.firmware_version2);
        sink.byte(self.data.description);
        sink.qword(self.data.characteristics);
        sink.dword(self.data.oem_defined);
        let ghost record_done = sink.sunk();
        proof {
            assert(record_done =~= old(sink).sunk() + self.record_bytes());
        }
        self.strings.emit_tail(sink);
        proof {
            assert(sink.sunk() == record_done + string_tail(self.spec_strings()));
            assert(sink.sunk() =~= old(sink).sunk() + self.spec_serialized());
        }
    }
}

/// The fixed record of the TPM device structure is always
/// 0x1f bytes — its spec constant, also held by its length byte —
/// independent of any strings added.
pub proof fn lemma_type43_record_size(x: &TpmDevice)
    ensures
        x.record_bytes().len() == 0x1f,
        x.record_bytes()[1] == 0x1f,
{
}

} // verus!
