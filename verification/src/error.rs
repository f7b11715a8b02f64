//! Faults an encoder surfaces to its caller. Encoding is pure and
//! deterministic, so every fault reflects invalid input and is returned
//! immediately rather than producing a malformed table.

use vstd::prelude::*;

verus! {

#[derive(Clone, Copy, Debug, PartialEq, Eq, Structural)]
pub enum SmbiosError {
    /// More than 255 strings were appended to one structure instance.
    StringTableFull,
    /// A vendor-specific status code lies outside 128..=191, or a
    /// product-specific status code is below 192.
    InvalidStatusCode,
    /// A status payload too long for the structure's one-byte length field.
    PayloadTooLong,
    /// A scaled value does not fit even its extended field.
    SizeOutOfRange,
}

} // verus!
