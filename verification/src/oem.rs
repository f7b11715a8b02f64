//! The OEM strings structure: a pure string list under a count byte.
//! Unlike the generic facility's tail there is no extra terminator for an
//! empty list, since the count byte already communicates emptiness.

use crate::error::SmbiosError;
use crate::strtab::{strings_bytes, StringTable};
use crate::wire::le16;
use crate::{Sink, SmbiosStructure};
use vstd::prelude::*;
use vstd::string::StringSliceAdditionalSpecFns;

verus! {

/// Free-form OEM strings under one handle.
pub struct OemStrings {
    handle: u16,
    strings: StringTable,
}

impl OemStrings {
    pub closed spec fn spec_handle(&self) -> u16 {
        self.handle
    }

    pub closed spec fn spec_strings(&self) -> Seq<Seq<u8>> {
        self.strings@
    }

    pub fn new(handle: u16) -> (r: Self)
        ensures
            r.spec_handle() == handle,
            r.spec_strings() == Seq::<Seq<u8>>::empty(),
    {
        OemStrings { handle, strings: StringTable::new() }
    }

    /// Append one string, returning its 1-based index: the k-th
    /// successful append returns k. A table already holding 255 strings
    /// refuses the append and the structure stays unchanged.
    pub fn add_string(&mut self, s: &str) -> (r: Result<u8, SmbiosError>)
        ensures
            final(self).spec_handle() == old(self).spec_handle(),
            old(self).spec_strings().len() < 255 ==> r == Ok::<u8, SmbiosError>(
                (old(self).spec_strings().len() + 1) as u8,
            ) && final(self).spec_strings() == old(self).spec_strings().push(s.spec_bytes()),
            old(self).spec_strings().len() >= 255 ==> r == Err::<u8, SmbiosError>(
                SmbiosError::StringTableFull,
            ) && final(self).spec_strings() == old(self).spec_strings(),
    {
        self.strings.push_str(s)
    }
}

impl SmbiosStructure for OemStrings {
    /// Type id, the fixed length 5, handle, the string count, then each
    /// string zero-terminated and one final table terminator.
    open spec fn spec_serialized(&self) -> Seq<u8> {
        seq![11u8, 5u8] + le16(self.spec_handle()) + seq![self.spec_strings().len() as u8]
            + strings_bytes(self.spec_strings()) + seq![0u8]
    }

    open spec fn wf(&self) -> bool {
        self.spec_strings().len() <= 255
    }

    fn serialize<S: Sink>(&self, sink: &mut S) {
        sink.byte(11);
        sink.byte(5);
        sink.word(self.handle);
        sink.byte(self.strings.count() as u8);
        self.strings.emit_strings(sink);
        sink.byte(0);
        proof {
            assert(sink.sunk() =~= old(sink).sunk() + self.spec_serialized());
        }
    }
}

/// The string-list record before its strings is always 5 bytes — the
/// constant its length byte holds.
pub proof fn lemma_type11_header_size(x: &OemStrings)
    ensures
        x.spec_serialized().len() == 5 + strings_bytes(x.spec_strings()).len() + 1,
        x.spec_serialized()[1] == 5,
{
}

} // verus!
