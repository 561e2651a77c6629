//! The order of bytes: reversal, and the little-endian layout of a number.

use vstd::prelude::*;

verus! {

/// Returns a new byte vector that holds the bytes of `bytes` from last to
/// first. The input is left as it is.
pub fn to_big_endian(bytes: &[u8]) -> (out: Vec<u8>)
    ensures
        out@ == bytes@.reverse(),
        out@.len() == bytes@.len(),
        forall|i: int| 0 <= i < bytes@.len() ==> out@[i] == bytes@[bytes@.len() - 1 - i],
{
    let n = bytes.len();
    let mut out: Vec<u8> = Vec::with_capacity(n);
    let mut i: usize = 0;
    while i < n
        invariant
            n == bytes@.len(),
            i <= n,
            out@.len() == i,
            forall|j: int| 0 <= j < i ==> out@[j] == bytes@[n - 1 - j],
        decreases n - i,
    {
        out.push(bytes[n - 1 - i]);
        i += 1;
    }
    assert(out@ =~= bytes@.reverse());
    out
}

/// Reversing twice gives back the bytes one started with.
pub proof fn lemma_reverse_twice(bytes: Seq<u8>)
    ensures
        bytes.reverse().reverse() == bytes,
{
    assert(bytes.reverse().reverse() =~= bytes);
}

/// The four bytes of `num`, least significant first.
pub open spec fn le_bytes(num: u32) -> Seq<u8> {
    seq![
        (num % 256) as u8,
        (num / 256 % 256) as u8,
        (num / 65536 % 256) as u8,
        (num / 16777216) as u8,
    ]
}

/// The number that four bytes stand for when the first is the least
/// significant.
pub open spec fn le_value(bytes: Seq<u8>) -> int
    recommends
        bytes.len() == 4,
{
    bytes[0] + 256 * bytes[1] + 65536 * bytes[2] + 16777216 * bytes[3]
}

/// Returns the little-endian byte layout of `num`: the least significant byte
/// comes first. Despite its name the function does not produce big-endian
/// output and swaps nothing; it lays the number out in little-endian order on
/// every machine.
pub fn swap_endian_u32(num: u32) -> (out: [u8; 4])
    ensures
        out@ == le_bytes(num),
        le_value(out@) == num,
{
    let b0: u8 = (num & 0xff) as u8;
    let b1: u8 = ((num >> 8) & 0xff) as u8;
    let b2: u8 = ((num >> 16) & 0xff) as u8;
    let b3: u8 = (num >> 24) as u8;
    assert(num & 0xff == num % 256) by (bit_vector);
    assert((num >> 8) & 0xff == num / 256 % 256) by (bit_vector);
    assert((num >> 16) & 0xff == num / 65536 % 256) by (bit_vector);
    assert(num >> 24 == num / 16777216) by (bit_vector);
    assert(num / 16777216 < 256) by (bit_vector);
    let out: [u8; 4] = [b0, b1, b2, b3];
    assert(out@ =~= le_bytes(num));
    out
}

} // verus!
