//! The end-of-table structure: the four header bytes alone, closing the
//! sequence of structures a consumer reads.

use crate::strtab::{string_tail, StringTable};
use crate::wire::le16;
use crate::{Sink, SmbiosStructure};
use vstd::prelude::*;

verus! {

/// Fixed record of the end-of-table structure.
#[derive(Clone, Copy, Debug)]
pub struct Type127Data {
    pub handle: u16,
}

pub struct EndOfTable {
    data: Type127Data,
    strings: StringTable,
}

impl EndOfTable {
    pub closed spec fn spec_data(&self) -> Type127Data {
        self.data
    }

    pub closed spec fn spec_strings(&self) -> Seq<Seq<u8>> {
        self.strings@
    }

    /// The 4 fixed-record bytes: type id, length, handle, then the
    /// schema fields in declared order.
    pub open spec fn record_bytes(&self) -> Seq<u8> {
        let d = self.spec_data();
        seq![127u8, 4u8] + le16(d.handle)
    }

    /// All fields start at their type-defined defaults.
    pub fn new(handle: u16) -> (r: Self)
        ensures
            r.spec_data() == (Type127Data {
                handle,
            }),
            r.spec_strings() == Seq::<Seq<u8>>::empty(),
    {
        let r = EndOfTable {
            data: Type127Data {
                handle,
            },
            strings: StringTable::new(),
        };
        r
    }

    pub fn get_handle(&self) -> (r: u16)
        ensures
            r == self.spec_data().handle,
    {
        self.data.handle
    }

}

impl SmbiosStructure for EndOfTable {
    open spec fn spec_serialized(&self) -> Seq<u8> {
        self.record_bytes() + string_tail(self.spec_strings())
    }

    open spec fn wf(&self) -> bool {
        self.spec_strings().len() <= 255
    }

    fn serialize<S: Sink>(&self, sink: &mut S) {
        sink.byte(127);
        sink.byte(4);
        sink.word(self.data.handle);
        let ghost record_done = sink.sunk();
        proof {
            assert(record_done =~= old(sink).sunk() + self.record_bytes());
        }
        self.strings.emit_tail(sink);
        proof {
            assert(sink.sunk() == record_done + string_tail(self.spec_strings()));
            assert(sink.sunk() =~= old(sink).sunk() + self.spec_serialized());
        }
    }
}

/// The fixed record of the end-of-table structure is always
/// 4 bytes — its spec constant, also held by its length byte —
/// independent of any strings added.
pub proof fn lemma_type127_record_size(x: &EndOfTable)
    ensures
        x.record_bytes().len() == 4,
        x.record_bytes()[1] == 4,
{
}

} // verus!
