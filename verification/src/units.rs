//! Byte-count helpers for the scaled numeric encodings. Shifts truncate
//! like the machine operation; callers stay within the ranges the table
//! format admits.

use vstd::prelude::*;

verus! {

/// `n` bytes expressed in whole mebibytes (the low 20 bits are dropped).
pub fn to_mb(n: u64) -> (r: u64)
    ensures
        r == n >> 20,
{
    n >> 20
}

/// `n` mebibytes expressed in bytes.
pub fn mb(n: u64) -> (r: u64)
    ensures
        r == n << 20,
{
    n << 20
}

/// `n` gibibytes expressed in bytes.
pub fn gb(n: u64) -> (r: u64)
    ensures
        r == n << 30,
{
    n << 30
}

/// `n` tebibytes expressed in bytes.
pub fn tb(n: u64) -> (r: u64)
    ensures
        r == n << 40,
{
    n << 40
}

} // verus!
