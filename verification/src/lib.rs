//! Encoders for the structures of a versioned system-description table
//! format: a generic facility for structures made of a fixed record and a
//! trailing string table, a handful of irregular structures, and the root
//! entry point with its checksum invariant. Every structure serializes
//! itself into a caller-owned byte sink, little-endian throughout.

use vstd::prelude::*;

pub mod bios;
pub mod boot;
pub mod cache;
pub mod end;
pub mod entry;
pub mod error;
pub mod memory;
pub mod oem;
pub mod processor;
pub mod slots;
pub mod strtab;
pub mod system;
pub mod tpm;
pub mod types;
pub mod units;
pub mod wire;

verus! {

/// A generic sink for raw data; structures serialize themselves into one.
/// `sunk` is the sequence of bytes accepted so far: the sink is append-only,
/// and multi-byte values are always emitted little-endian.
pub trait Sink {
    /// The bytes this sink has accepted so far.
    spec fn sunk(&self) -> Seq<u8>;

    /// Accept one byte.
    fn byte(&mut self, byte: u8)
        ensures
            final(self).sunk() == old(self).sunk().push(byte),
    ;

    /// Accept a 16-bit value, least significant byte first.
    fn word(&mut self, word: u16)
        ensures
            final(self).sunk() == old(self).sunk() + crate::wire::le16(word),
    {
        self.byte((word & 0xff) as u8);
        self.byte(((word >> 8) & 0xff) as u8);
        assert(final(self).sunk() =~= old(self).sunk() + crate::wire::le16(word));
    }

    /// Accept a 32-bit value, least significant byte first.
    fn dword(&mut self, dword: u32)
        ensures
            final(self).sunk() == old(self).sunk() + crate::wire::le32(dword),
    {
        self.byte((dword & 0xff) as u8);
        self.byte(((dword >> 8) & 0xff) as u8);
        self.byte(((dword >> 16) & 0xff) as u8);
        self.byte(((dword >> 24) & 0xff) as u8);
        assert(final(self).sunk() =~= old(self).sunk() + crate::wire::le32(dword));
    }

    /// Accept a 64-bit value, least significant byte first.
    fn qword(&mut self, qword: u64)
        ensures
            final(self).sunk() == old(self).sunk() + crate::wire::le64(qword),
    {
        self.byte((qword & 0xff) as u8);
        self.byte(((qword >> 8) & 0xff) as u8);
        self.byte(((qword >> 16) & 0xff) as u8);
        self.byte(((qword >> 24) & 0xff) as u8);
        self.byte(((qword >> 32) & 0xff) as u8);
        self.byte(((qword >> 40) & 0xff) as u8);
        self.byte(((qword >> 48) & 0xff) as u8);
        self.byte(((qword >> 56) & 0xff) as u8);
        assert(final(self).sunk() =~= old(self).sunk() + crate::wire::le64(qword));
    }

    /// Accept a byte sequence verbatim.
    fn vec(&mut self, v: &[u8])
        ensures
            final(self).sunk() == old(self).sunk() + v@,
    {
        let mut i: usize = 0;
        while i < v.len()
            invariant
                i <= v@.len(),
                self.sunk() == old(self).sunk() + v@.take(i as int),
            decreases v@.len() - i,
        {
            self.byte(v[i]);
            i = i + 1;
            assert(old(self).sunk() + v@.take(i - 1).push(v@[i - 1]) =~= old(self).sunk()
                + v@.take(i as int));
        }
        assert(old(self).sunk() + v@.take(v@.len() as int) =~= old(self).sunk() + v@);
    }
}

// A growable byte buffer is the canonical sink.
impl Sink for Vec<u8> {
    open spec fn sunk(&self) -> Seq<u8> {
        self@
    }

    fn byte(&mut self, byte: u8) {
        self.push(byte);
    }
}

/// Structures of the table format can be serialized. A serialization emits
/// exactly the bytes `spec_serialized` defines, in wire order, and reads the
/// structure's own state only.
pub trait SmbiosStructure {
    /// The exact byte sequence this structure encodes to.
    spec fn spec_serialized(&self) -> Seq<u8>;

    /// Well-formedness demanded of a structure before it serializes.
    spec fn wf(&self) -> bool;

    /// Append this structure's encoding to `sink`.
    fn serialize<S: Sink>(&self, sink: &mut S)
        requires
            self.wf(),
        ensures
            final(sink).sunk() == old(sink).sunk() + self.spec_serialized(),
    ;
}

} // verus!
