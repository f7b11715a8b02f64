//! The system slots structure: one expansion slot's type, width, usage
//! and addressing, without peer-group support.

use crate::error::SmbiosError;
use crate::strtab::{string_index_ok, string_tail, StringTable};
use crate::types::{CurrentUsage, SlotLength, SlotType, SlotWidth};
use crate::wire::le16;
use crate::{Sink, SmbiosStructure};
use vstd::prelude::*;
use vstd::string::StringSliceAdditionalSpecFns;

verus! {

/// Fixed record of the system slots structure.
#[derive(Clone, Copy, Debug)]
pub struct Type9Data {
    pub handle: u16,
    pub slot_designation: u8,
    pub slot_type: SlotType,
    pub slot_data_bus_width: SlotWidth,
    pub current_usage: CurrentUsage,
    pub slot_length: SlotLength,
    pub slot_id: u16,
    pub slot_characteristics1: u8,
    pub slot_characteristics2: u8,
    pub segment_group_number: u16,
    pub bus_number: u8,
    pub devfn: u8,
    pub data_bus_width: u8,
    pub peer_group_count: u8,
}

pub struct SystemSlots {
    data: Type9Data,
    strings: StringTable,
}

impl SystemSlots {
    pub closed spec fn spec_data(&self) -> Type9Data {
        self.data
    }

    pub closed spec fn spec_strings(&self) -> Seq<Seq<u8>> {
        self.strings@
    }

    /// The 0x13 fixed-record bytes: type id, length, handle, then the
    /// schema fields in declared order.
    pub open spec fn record_bytes(&self) -> Seq<u8> {
        let d = self.spec_data();
        seq![9u8, 0x13u8] + le16(d.handle) + seq![d.slot_designation, d.slot_type.spec_code(), d.slot_data_bus_width.spec_code(), d.current_usage.spec_code(), d.slot_length.spec_code()] + le16(d.slot_id) + seq![d.slot_characteristics1, d.slot_characteristics2] + le16(d.segment_group_number) + seq![d.bus_number, d.devfn, d.data_bus_width, d.peer_group_count]
    }

    /// All fields start at their type-defined defaults.
    pub fn new(handle: u16) -> (r: Self)
        ensures
            r.spec_data() == (Type9Data {
                handle,
                slot_designation: 0u8,
                slot_type: SlotType::Unknown,
                slot_data_bus_width: SlotWidth::Unknown,
                current_usage: CurrentUsage::Unknown,
                slot_length: SlotLength::Unknown,
                slot_id: 0u16,
                slot_characteristics1: 0u8,
                slot_characteristics2: 0u8,
                segment_group_number: 0u16,
                bus_number: 0u8,
                devfn: 0u8,
                data_bus_width: 0u8,
                peer_group_count: 0u8,
            }),
            r.spec_strings() == Seq::<Seq<u8>>::empty(),
    {
        let r = SystemSlots {
            data: Type9Data {
                handle,
                slot_designation: 0,
                slot_type: SlotType::Unknown,
                slot_data_bus_width: SlotWidth::Unknown,
                current_usage: CurrentUsage::Unknown,
                slot_length: SlotLength::Unknown,
                slot_id: 0,
                slot_characteristics1: 0,
                slot_characteristics2: 0,
                segment_group_number: 0,
                bus_number: 0,
                devfn: 0,
                data_bus_width: 0,
                peer_group_count: 0,
            },
            strings: StringTable::new(),
        };
        r
    }

    pub fn get_handle(&self) -> (r: u16)
        ensures
            r == self.spec_data().handle,
    {
        self.data.handle
    }

    /// Append the string, storing its 1-based index in the `slot_designation`
    /// field; a full string table refuses the append and leaves the
    /// structure unchanged.
    pub fn set_slot_designation(&mut self, s: &str) -> (r: Result<u8, SmbiosError>)
        ensures
            old(self).spec_strings().len() < 255 ==> r == Ok::<u8, SmbiosError>(
                (old(self).spec_strings().len() + 1) as u8,
            ) && final(self).spec_strings() == old(self).spec_strings().push(s.spec_bytes())
                && final(self).spec_data() == (Type9Data {
                slot_designation: (old(self).spec_strings().len() + 1) as u8,
                ..old(self).spec_data()
            }),
            old(self).spec_strings().len() >= 255 ==> r == Err::<u8, SmbiosError>(
                SmbiosError::StringTableFull,
            ) && final(self).spec_strings() == old(self).spec_strings() && final(self).spec_data()
                == old(self).spec_data(),
    {
        match self.strings.push_str(s) {
            Ok(idx) => {
                self.data.slot_designation = idx;
                Ok(idx)
            },
            Err(e) => Err(e),
        }
    }

    pub fn set_slot_type(&mut self, t: SlotType)
        ensures
            final(self).spec_data() == (Type9Data { slot_type: t, ..old(self).spec_data() }),
            final(self).spec_strings() == old(self).spec_strings(),
    {
        self.data.slot_type = t;
    }

    pub fn set_slot_data_bus_width(&mut self, t: SlotWidth)
        ensures
            final(self).spec_data() == (Type9Data { slot_data_bus_width: t, ..old(self).spec_data() }),
            final(self).spec_strings() == old(self).spec_strings(),
    {
        self.data.slot_data_bus_width = t;
    }

    pub fn set_current_usage(&mut self, t: CurrentUsage)
        ensures
            final(self).spec_data() == (Type9Data { current_usage: t, ..old(self).spec_data() }),
            final(self).spec_strings() == old(self).spec_strings(),
    {
        self.data.current_usage = t;
    }

    pub fn set_slot_length(&mut self, t: SlotLength)
        ensures
            final(self).spec_data() == (Type9Data { slot_length: t, ..old(self).spec_data() }),
            final(self).spec_strings() == old(self).spec_strings(),
    {
        self.data.slot_length = t;
    }

    pub fn set_slot_id(&mut self, t: u16)
        ensures
            final(self).spec_data() == (Type9Data { slot_id: t, ..old(self).spec_data() }),
            final(self).spec_strings() == old(self).spec_strings(),
    {
        self.data.slot_id = t;
    }

    pub fn set_slot_characteristics1(&mut self, t: u8)
        ensures
            final(self).spec_data() == (Type9Data { slot_characteristics1: t, ..old(self).spec_data() }),
            final(self).spec_strings() == old(self).spec_strings(),
    {
        self.data.slot_characteristics1 = t;
    }

    pub fn set_slot_characteristics2(&mut self, t: u8)
        ensures
            final(self).spec_data() == (Type9Data { slot_characteristics2: t, ..old(self).spec_data() }),
            final(self).spec_strings() == old(self).spec_strings(),
    {
        self.data.slot_characteristics2 = t;
    }

    pub fn set_segment_group_number(&mut self, t: u16)
        ensures
            final(self).spec_data() == (Type9Data { segment_group_number: t, ..old(self).spec_data() }),
            final(self).spec_strings() == old(self).spec_strings(),
    {
        self.data.segment_group_number = t;
    }

    pub fn set_bus_number(&mut self, t: u8)
        ensures
            final(self).spec_data() == (Type9Data { bus_number: t, ..old(self).spec_data() }),
            final(self).spec_strings() == old(self).spec_strings(),
    {
        self.data.bus_number = t;
    }

    pub fn set_devfn(&mut self, t: u8)
        ensures
            final(self).spec_data() == (Type9Data { devfn: t, ..old(self).spec_data() }),
            final(self).spec_strings() == old(self).spec_strings(),
    {
        self.data.devfn = t;
    }

    pub fn set_data_bus_width(&mut self, t: u8)
        ensures
            final(self).spec_data() == (Type9Data { data_bus_width: t, ..old(self).spec_data() }),
            final(self).spec_strings() == old(self).spec_strings(),
    {
        self.data.data_bus_width = t;
    }

    pub fn set_peer_group_count(&mut self, t: u8)
        ensures
            final(self).spec_data() == (Type9Data { peer_group_count: t, ..old(self).spec_data() }),
            final(self).spec_strings() == old(self).spec_strings(),
    {
        self.data.peer_group_count = t;
    }

}

impl SmbiosStructure for SystemSlots {
    open spec fn spec_serialized(&self) -> Seq<u8> {
        self.record_bytes() + string_tail(self.spec_strings())
    }

    /// The count stays within the format's bound and every
    /// string-reference field points into the table.
    open spec fn wf(&self) -> bool {
        &&& self.spec_strings().len() <= 255
        &&& string_index_ok(self.spec_data().slot_designation, self.spec_strings())
    }

    fn serialize<S: Sink>(&self, sink: &mut S) {
        sink.byte(9);
        sink.byte(0x13);
        sink.word(self.data.handle);
        sink.byte(self.data.slot_designation);
        sink.byte(self.data.slot_type.code());
        sink.byte(self.data.slot_data_bus_width.code());
        sink.byte(self.data.current_usage.code());
        sink.byte(self.data.slot_length.code());
        sink.word(self.data.slot_id);
        sink.byte(self.data.slot_characteristics1);
        sink.byte(self.data.slot_characteristics2);
        sink.word(self.data.segment_group_number);
        sink.byte(self.data.bus_number);
        sink.byte(self.data.devfn);
        sink.byte(self.data.data_bus_width);
        sink.byte(self.data.peer_group_count);
        let ghost record_done = sink.sunk();
        proof {
            assert(record_done =~= old(sink).sunk() + self.record_bytes());
        }
        self.strings.emit_tail(sink);
        proof {
            assert(sink.sunk() == record_done + string_tail(self.spec_strings()));
            assert(sink.sunk() =~= old(sink).sunk() + self.spec_serialized());
        }
    }
}

/// The fixed record of the system slots structure is always
/// 0x13 bytes — its spec constant, also held by its length byte —
/// independent of any strings added.
pub proof fn lemma_type9_record_size(x: &SystemSlots)
    ensures
        x.record_bytes().len() == 0x13,
        x.record_bytes()[1] == 0x13,
{
}

} // verus!
