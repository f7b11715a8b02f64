//! The 64-bit entry point: the root structure locating the table blob.
//! Its 24 bytes carry a checksum chosen so that their sum is zero
//! modulo 256.

use crate::wire::{byte_sum, le32, le64};
use crate::{Sink, SmbiosStructure};
use vstd::arithmetic::div_mod::lemma_add_mod_noop;
use vstd::prelude::*;

verus! {

/// Specification major version encoded in the entry point.
pub const SMBIOS_MAJOR: u8 = 3;

/// Specification minor version encoded in the entry point.
pub const SMBIOS_MINOR: u8 = 7;

/// Specification document revision encoded in the entry point.
pub const SMBIOS_DOCREV: u8 = 0;

/// Entry point revision byte; the value 1 signals the 64-bit variant.
pub const SMBIOS_REVISION: u8 = 1;

/// The fixed 24-byte root structure. `structure_max_size` bounds the size
/// of any structure in the table; `table_address` points at the blob.
#[derive(Clone, Copy, Debug)]
pub struct EntryPoint {
    checksum: u8,
    structure_max_size: u32,
    table_address: u64,
}

/// The 24 serialized bytes of an entry point holding checksum `checksum`,
/// maximum structure size `max_size` and table address `address`: the
/// five anchor bytes spelling `_SM3_`, the checksum, the total length 0x18,
/// the version triple, the revision byte, one reserved byte, then the two
/// location fields little-endian.
pub open spec fn entry_point_bytes(checksum: u8, max_size: u32, address: u64) -> Seq<u8> {
    seq![
        0x5fu8,
        0x53u8,
        0x4du8,
        0x33u8,
        0x5fu8,
        checksum,
        0x18u8,
        SMBIOS_MAJOR,
        SMBIOS_MINOR,
        SMBIOS_DOCREV,
        SMBIOS_REVISION,
        0u8,
    ] + le32(max_size) + le64(address)
}

impl EntryPoint {
    pub closed spec fn spec_checksum(&self) -> u8 {
        self.checksum
    }

    pub closed spec fn spec_max_size(&self) -> u32 {
        self.structure_max_size
    }

    pub closed spec fn spec_address(&self) -> u64 {
        self.table_address
    }

    /// Builds the entry point for the given bound and address, choosing the
    /// checksum byte that makes the serialized bytes sum to zero modulo 256.
    pub fn new(structure_max_size: u32, table_address: u64) -> (r: Self)
        ensures
            r.spec_max_size() == structure_max_size,
            r.spec_address() == table_address,
            r.wf(),
    {
        let mut s = EntryPoint { checksum: 0, structure_max_size, table_address };
        let mut buf: Vec<u8> = Vec::new();
        s.emit(&mut buf);
        let n: usize = buf.len();
        let mut sum: u8 = 0;
        let mut i: usize = 0;
        while i < n
            invariant
                i <= n,
                n == buf@.len(),
                sum as int == byte_sum(buf@.take(i as int)) % 256,
            decreases n - i,
        {
            proof {
                let prefix = buf@.take(i as int);
                let next = buf@.take(i + 1);
                assert(next.drop_last() =~= prefix);
                assert(next.last() == buf@[i as int]);
                lemma_add_mod_noop(byte_sum(prefix), buf@[i as int] as int, 256);
                crate::wire::lemma_byte_sum_nonneg(prefix);
            }
            sum = sum.wrapping_add(buf[i]);
            i = i + 1;
        }
        proof {
            assert(buf@.take(n as int) =~= buf@);
        }
        // The two's complement of the sum of the other 23 bytes.
        let fix: u8 = if sum == 0 {
            0
        } else {
            255 - sum + 1
        };
        s.checksum = fix;
        proof {
            let zeroed = entry_point_bytes(0, structure_max_size, table_address);
            let fixed = entry_point_bytes(fix, structure_max_size, table_address);
            assert(fixed =~= zeroed.update(5, fix));
            crate::wire::lemma_byte_sum_update(zeroed, 5, fix);
            assert(zeroed[5] == 0);
            lemma_add_mod_noop(byte_sum(zeroed), fix as int, 256);
        }
        s
    }

    /// Append the 24 record bytes; `new` uses this before the checksum is
    /// in place, so no well-formedness is asked.
    fn emit<S: Sink>(&self, sink: &mut S)
        ensures
            final(sink).sunk() == old(sink).sunk() + self.spec_serialized(),
    {
        sink.byte(0x5f);
        sink.byte(0x53);
        sink.byte(0x4d);
        sink.byte(0x33);
        sink.byte(0x5f);
        sink.byte(self.checksum);
        sink.byte(0x18);
        sink.byte(SMBIOS_MAJOR);
        sink.byte(SMBIOS_MINOR);
        sink.byte(SMBIOS_DOCREV);
        sink.byte(SMBIOS_REVISION);
        sink.byte(0);
        sink.dword(self.structure_max_size);
        sink.qword(self.table_address);
        proof {
            assert(sink.sunk() =~= old(sink).sunk() + self.spec_serialized());
        }
    }
}

impl SmbiosStructure for EntryPoint {
    open spec fn spec_serialized(&self) -> Seq<u8> {
        entry_point_bytes(self.spec_checksum(), self.spec_max_size(), self.spec_address())
    }

    /// The checksum invariant: all 24 bytes sum to zero modulo 256.
    open spec fn wf(&self) -> bool {
        byte_sum(self.spec_serialized()) % 256 == 0
    }

    fn serialize<S: Sink>(&self, sink: &mut S) {
        self.emit(sink);
    }
}

/// The entry point's checksum law: the sum of all 24 serialized bytes of a
/// well-formed entry point, modulo 256, is zero — and there are exactly 24
/// of them.
pub proof fn lemma_entry_point_sum_zero(ep: EntryPoint)
    requires
        ep.wf(),
    ensures
        byte_sum(ep.spec_serialized()) % 256 == 0,
        ep.spec_serialized().len() == 24,
{
}

} // verus!
