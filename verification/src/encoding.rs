//! Fixed-width integer encodings used in seeds and instruction data.

use vstd::prelude::*;

verus! {

/// The eight bytes of `x`, most significant first.
pub open spec fn u64_be_bytes(x: u64) -> Seq<u8> {
    seq![
        ((x >> 56) & 0xff) as u8,
        ((x >> 48) & 0xff) as u8,
        ((x >> 40) & 0xff) as u8,
        ((x >> 32) & 0xff) as u8,
        ((x >> 24) & 0xff) as u8,
        ((x >> 16) & 0xff) as u8,
        ((x >> 8) & 0xff) as u8,
        (x & 0xff) as u8,
    ]
}

/// The four bytes of `x`, least significant first.
pub open spec fn u32_le_bytes(x: u32) -> Seq<u8> {
    seq![
        (x & 0xff) as u8,
        ((x >> 8) & 0xff) as u8,
        ((x >> 16) & 0xff) as u8,
        ((x >> 24) & 0xff) as u8,
    ]
}

/// Appends the big-endian encoding of `x` to `out`.
pub fn put_u64_be(out: &mut Vec<u8>, x: u64)
    ensures
        final(out)@ == old(out)@ + u64_be_bytes(x),
{
    let b7: u64 = (x >> 56) & 0xff;
    let b6: u64 = (x >> 48) & 0xff;
    let b5: u64 = (x >> 40) & 0xff;
    let b4: u64 = (x >> 32) & 0xff;
    let b3: u64 = (x >> 24) & 0xff;
    let b2: u64 = (x >> 16) & 0xff;
    let b1: u64 = (x >> 8) & 0xff;
    let b0: u64 = x & 0xff;
    assert(b7 <= 0xff && b6 <= 0xff && b5 <= 0xff && b4 <= 0xff) by (bit_vector)
        requires
            b7 == (x >> 56) & 0xff,
            b6 == (x >> 48) & 0xff,
            b5 == (x >> 40) & 0xff,
            b4 == (x >> 32) & 0xff,
    ;
    assert(b3 <= 0xff && b2 <= 0xff && b1 <= 0xff && b0 <= 0xff) by (bit_vector)
        requires
            b3 == (x >> 24) & 0xff,
            b2 == (x >> 16) & 0xff,
            b1 == (x >> 8) & 0xff,
            b0 == x & 0xff,
    ;
    out.push(b7 as u8);
    out.push(b6 as u8);
    out.push(b5 as u8);
    out.push(b4 as u8);
    out.push(b3 as u8);
    out.push(b2 as u8);
    out.push(b1 as u8);
    out.push(b0 as u8);
    assert(out@ =~= old(out)@ + u64_be_bytes(x));
}

} // verus!
