//! Big-endian 16-bit integers in byte buffers, read and written with byteorder.

use byteorder::{BigEndian, ByteOrder};
use vstd::prelude::*;

verus! {

/// The more significant byte of `n`.
pub open spec fn hi_byte(n: u16) -> u8 {
    (n / 256) as u8
}

/// The less significant byte of `n`.
pub open spec fn lo_byte(n: u16) -> u8 {
    (n % 256) as u8
}

/// The integer whose big-endian bytes are `hi`, then `lo`.
pub open spec fn from_be(hi: u8, lo: u8) -> u16 {
    (hi as int * 256 + lo as int) as u16
}

/// Relies on byteorder's `BigEndian::read_u16`: the integer whose bytes,
/// most significant first, are the first two of the slice it is given.
#[verifier::external_body]
pub fn read_be_u16(buf: &[u8], at: usize) -> (r: u16)
    requires
        at + 2 <= buf@.len(),
    ensures
        r == from_be(buf@[at as int], buf@[at + 1]),
{
    BigEndian::read_u16(&buf[at..])
}

/// Relies on byteorder's `BigEndian::write_u16`: it stores `n`, most
/// significant byte first, in the first two bytes of the slice it is given
/// and touches no other byte.
#[verifier::external_body]
pub fn write_be_u16(buf: &mut [u8], at: usize, n: u16)
    requires
        at + 2 <= old(buf)@.len(),
    ensures
        final(buf)@ == old(buf)@.update(at as int, hi_byte(n)).update(at + 1, lo_byte(n)),
{
    BigEndian::write_u16(&mut buf[at..], n)
}

/// Reading back the two bytes of `n` gives `n`.
pub proof fn lemma_be_round_trip(n: u16)
    ensures
        from_be(hi_byte(n), lo_byte(n)) == n,
{
}

} // verus!
