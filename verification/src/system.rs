//! The system information structure: manufacturer, product and serial
//! identification strings, the system UUID and the wake-up cause.

use crate::error::SmbiosError;
use crate::strtab::{string_index_ok, string_tail, StringTable};
use crate::types::WakeupType;
use crate::wire::le16;
use crate::{Sink, SmbiosStructure};
use vstd::prelude::*;
use vstd::string::StringSliceAdditionalSpecFns;

verus! {

/// Fixed record of the system information structure.
#[derive(Clone, Copy, Debug)]
pub struct Type1Data {
    pub handle: u16,
    pub manufacturer: u8,
    pub product_name: u8,
    pub version: u8,
    pub serial_number: u8,
    pub uuid: [u8; 16],
    pub wakeup_type: WakeupType,
    pub sku_number: u8,
    pub family: u8,
}

pub struct SystemInformation {
    data: Type1Data,
    strings: StringTable,
}

impl SystemInformation {
    pub closed spec fn spec_data(&self) -> Type1Data {
        self.data
    }

    pub closed spec fn spec_strings(&self) -> Seq<Seq<u8>> {
        self.strings@
    }

    /// The 0x1b fixed-record bytes: type id, length, handle, then the
    /// schema fields in declared order.
    pub open spec fn record_bytes(&self) -> Seq<u8> {
        let d = self.spec_data();
        seq![1u8, 0x1bu8] + le16(d.handle) + seq![d.manufacturer, d.product_name, d.version, d.serial_number] + d.uuid@ + seq![d.wakeup_type.spec_code(), d.sku_number, d.family]
    }

    /// All fields start at their type-defined defaults.
    pub fn new(handle: u16) -> (r: Self)
        ensures
            r.spec_data() == (Type1Data {
                handle,
                manufacturer: 0u8,
                product_name: 0u8,
                version: 0u8,
                serial_number: 0u8,
                uuid: r.spec_data().uuid,
                wakeup_type: WakeupType::Unknown,
                sku_number: 0u8,
                family: 0u8,
            }),
            r.spec_data().uuid@ == Seq::<u8>::new(16, |i: int| 0u8),
            r.spec_strings() == Seq::<Seq<u8>>::empty(),
    {
        let r = SystemInformation {
            data: Type1Data {
                handle,
                manufacturer: 0,
                product_name: 0,
                version: 0,
                serial_number: 0,
                uuid: [0; 16],
                wakeup_type: WakeupType::Unknown,
                sku_number: 0,
                family: 0,
            },
            strings: StringTable::new(),
        };
        proof {
            assert(r.data.uuid@ =~= Seq::<u8>::new(16, |i: int| 0u8));
        }
        r
    }

    pub fn get_handle(&self) -> (r: u16)
        ensures
            r == self.spec_data().handle,
    {
        self.data.handle
    }

    /// Append the string, storing its 1-based index in the `manufacturer`
    /// field; a full string table refuses the append and leaves the
    /// structure unchanged.
    pub fn set_manufacturer(&mut self, s: &str) -> (r: Result<u8, SmbiosError>)
        ensures
            old(self).spec_strings().len() < 255 ==> r == Ok::<u8, SmbiosError>(
                (old(self).spec_strings().len() + 1) as u8,
            ) && final(self).spec_strings() == old(self).spec_strings().push(s.spec_bytes())
                && final(self).spec_data() == (Type1Data {
                manufacturer: (old(self).spec_strings().len() + 1) as u8,
                ..old(self).spec_data()
            }),
            old(self).spec_strings().len() >= 255 ==> r == Err::<u8, SmbiosError>(
                SmbiosError::StringTableFull,
            ) && final(self).spec_strings() == old(self).spec_strings() && final(self).spec_data()
                == old(self).spec_data(),
    {
        match self.strings.push_str(s) {
            Ok(idx) => {
                self.data.manufacturer = idx;
                Ok(idx)
            },
            Err(e) => Err(e),
        }
    }

    /// Append the string, storing its 1-based index in the `product_name`
    /// field; a full string table refuses the append and leaves the
    /// structure unchanged.
    pub fn set_product_name(&mut self, s: &str) -> (r: Result<u8, SmbiosError>)
        ensures
            old(self).spec_strings().len() < 255 ==> r == Ok::<u8, SmbiosError>(
                (old(self).spec_strings().len() + 1) as u8,
            ) && final(self).spec_strings() == old(self).spec_strings().push(s.spec_bytes())
                && final(self).spec_data() == (Type1Data {
                product_name: (old(self).spec_strings().len() + 1) as u8,
                ..old(self).spec_data()
            }),
            old(self).spec_strings().len() >= 255 ==> r == Err::<u8, SmbiosError>(
                SmbiosError::StringTableFull,
            ) && final(self).spec_strings() == old(self).spec_strings() && final(self).spec_data()
                == old(self).spec_data(),
    {
        match self.strings.push_str(s) {
            Ok(idx) => {
                self.data.product_name = idx;
                Ok(idx)
            },
            Err(e) => Err(e),
        }
    }

    /// Append the string, storing its 1-based index in the `version`
    /// field; a full string table refuses the append and leaves the
    /// structure unchanged.
    pub fn set_version(&mut self, s: &str) -> (r: Result<u8, SmbiosError>)
        ensures
            old(self).spec_strings().len() < 255 ==> r == Ok::<u8, SmbiosError>(
                (old(self).spec_strings().len() + 1) as u8,
            ) && final(self).spec_strings() == old(self).spec_strings().push(s.spec_bytes())
                && final(self).spec_data() == (Type1Data {
                version: (old(self).spec_strings().len() + 1) as u8,
                ..old(self).spec_data()
            }),
            old(self).spec_strings().len() >= 255 ==> r == Err::<u8, SmbiosError>(
                SmbiosError::StringTableFull,
            ) && final(self).spec_strings() == old(self).spec_strings() && final(self).spec_data()
                == old(self).spec_data(),
    {
        match self.strings.push_str(s) {
            Ok(idx) => {
                self.data.version = idx;
                Ok(idx)
            },
            Err(e) => Err(e),
        }
    }

    /// Append the string, storing its 1-based index in the `serial_number`
    /// field; a full string table refuses the append and leaves the
    /// structure unchanged.
    pub fn set_serial_number(&mut self, s: &str) -> (r: Result<u8, SmbiosError>)
        ensures
            old(self).spec_strings().len() < 255 ==> r == Ok::<u8, SmbiosError>(
                (old(self).spec_strings().len() + 1) as u8,
            ) && final(self).spec_strings() == old(self).spec_strings().push(s.spec_bytes())
                && final(self).spec_data() == (Type1Data {
                serial_number: (old(self).spec_strings().len() + 1) as u8,
                ..old(self).spec_data()
            }),
            old(self).spec_strings().len() >= 255 ==> r == Err::<u8, SmbiosError>(
                SmbiosError::StringTableFull,
            ) && final(self).spec_strings() == old(self).spec_strings() && final(self).spec_data()
                == old(self).spec_data(),
    {
        match self.strings.push_str(s) {
            Ok(idx) => {
                self.data.serial_number = idx;
                Ok(idx)
            },
            Err(e) => Err(e),
        }
    }

    pub fn set_uuid(&mut self, t: [u8; 16])
        ensures
            final(self).spec_data() == (Type1Data { uuid: t, ..old(self).spec_data() }),
            final(self).spec_strings() == old(self).spec_strings(),
    {
        self.data.uuid = t;
    }

    pub fn set_wakeup_type(&mut self, t: WakeupType)
        ensures
            final(self).spec_data() == (Type1Data { wakeup_type: t, ..old(self).spec_data() }),
            final(self).spec_strings() == old(self).spec_strings(),
    {
        self.data.wakeup_type = t;
    }

    /// Append the string, storing its 1-based index in the `sku_number`
    /// field; a full string table refuses the append and leaves the
    /// structure unchanged.
    pub fn set_sku_number(&mut self, s: &str) -> (r: Result<u8, SmbiosError>)
        ensures
            old(self).spec_strings().len() < 255 ==> r == Ok::<u8, SmbiosError>(
                (old(self).spec_strings().len() + 1) as u8,
            ) && final(self).spec_strings() == old(self).spec_strings().push(s.spec_bytes())
                && final(self).spec_data() == (Type1Data {
                sku_number: (old(self).spec_strings().len() + 1) as u8,
                ..old(self).spec_data()
            }),
            old(self).spec_strings().len() >= 255 ==> r == Err::<u8, SmbiosError>(
                SmbiosError::StringTableFull,
            ) && final(self).spec_strings() == old(self).spec_strings() && final(self).spec_data()
                == old(self).spec_data(),
    {
        match self.strings.push_str(s) {
            Ok(idx) => {
                self.data.sku_number = idx;
                Ok(idx)
            },
            Err(e) => Err(e),
        }
    }

    /// Append the string, storing its 1-based index in the `family`
    /// field; a full string table refuses the append and leaves the
    /// structure unchanged.
    pub fn set_family(&mut self, s: &str) -> (r: Result<u8, SmbiosError>)
        ensures
            old(self).spec_strings().len() < 255 ==> r == Ok::<u8, SmbiosError>(
                (old(self).spec_strings().len() + 1) as u8,
            ) && final(self).spec_strings() == old(self).spec_strings().push(s.spec_bytes())
                && final(self).spec_data() == (Type1Data {
                family: (old(self).spec_strings().len() + 1) as u8,
                ..old(self).spec_data()
            }),
            old(self).spec_strings().len() >= 255 ==> r == Err::<u8, SmbiosError>(
                SmbiosError::StringTableFull,
            ) && final(self).spec_strings() == old(self).spec_strings() && final(self).spec_data()
                == old(self).spec_data(),
    {
        match self.strings.push_str(s) {
            Ok(idx) => {
                self.data.family = idx;
                Ok(idx)
            },
            Err(e) => Err(e),
        }
    }

}

impl SmbiosStructure for SystemInformation {
    open spec fn spec_serialized(&self) -> Seq<u8> {
        self.record_bytes() + string_tail(self.spec_strings())
    }

    /// The count stays within the format's bound and every
    /// string-reference field points into the table.
    open spec fn wf(&self) -> bool {
        &&& self.spec_strings().len() <= 255
        &&& string_index_ok(self.spec_data().manufacturer, self.spec_strings())
        &&& string_index_ok(self.spec_data().product_name, self.spec_strings())
        &&& string_index_ok(self.spec_data().version, self.spec_strings())
        &&& string_index_ok(self.spec_data().serial_number, self.spec_strings())
        &&& string_index_ok(self.spec_data().sku_number, self.spec_strings())
        &&& string_index_ok(self.spec_data().family, self.spec_strings())
    }

    fn serialize<S: Sink>(&self, sink: &mut S) {
        sink.byte(1);
        sink.byte(0x1b);
        sink.word(self.data.handle);
        sink.byte(self.data.manufacturer);
        sink.byte(self.data.product_name);
        sink.byte(self.data.version);
        sink.byte(self.data.serial_number);
        sink.vec(vstd::array::array_as_slice(&self.data.uuid));
        sink.byte(self.data.wakeup_type.code());
        sink.byte(self.data.sku_number);
        sink.byte(self.data.family);
        let ghost record_done = sink.sunk();
        proof {
            assert(record_done =~= old(sink).sunk() + self.record_bytes());
        }
        self.strings.emit_tail(sink);
        proof {
            assert(sink.sunk() == record_done + string_tail(self.spec_strings()));
            assert(sink.sunk() =~= old(sink).sunk() + self.spec_serialized());
        }
    }
}

/// The fixed record of the system information structure is always
/// 0x1b bytes — its spec constant, also held by its length byte —
/// independent of any strings added.
pub proof fn lemma_type1_record_size(x: &SystemInformation)
    ensures
        x.record_bytes().len() == 0x1b,
        x.record_bytes()[1] == 0x1b,
{
}

} // verus!
