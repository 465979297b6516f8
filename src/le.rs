//! Little-endian byte layouts of fixed-width integers; the 32-bit one,
//! which instruction immediates use, is produced through `byteorder`.

use vstd::prelude::*;
use byteorder::{ByteOrder, LittleEndian};

verus! {

/// The two bytes of `n`, least significant first.
pub open spec fn le16(n: u16) -> Seq<u8> {
    seq![(n % 0x100) as u8, (n / 0x100) as u8]
}

/// The four bytes of `n`, least significant first.
pub open spec fn le32(n: u32) -> Seq<u8> {
    seq![
        (n % 0x100) as u8,
        (n / 0x100 % 0x100) as u8,
        (n / 0x1_0000 % 0x100) as u8,
        (n / 0x100_0000) as u8,
    ]
}

/// The eight bytes of `n`, least significant first.
pub open spec fn le64(n: u64) -> Seq<u8> {
    seq![
        (n % 0x100) as u8,
        (n / 0x100 % 0x100) as u8,
        (n / 0x1_0000 % 0x100) as u8,
        (n / 0x100_0000 % 0x100) as u8,
        (n / 0x1_0000_0000 % 0x100) as u8,
        (n / 0x100_0000_0000 % 0x100) as u8,
        (n / 0x1_0000_0000_0000 % 0x100) as u8,
        (n / 0x100_0000_0000_0000) as u8,
    ]
}

/// Relies on `byteorder::LittleEndian::write_u32`, which stores
/// `n.to_le_bytes()` in the first four bytes of the buffer.
#[verifier::external_body]
pub(crate) fn le_bytes_u32(n: u32) -> (r: Vec<u8>)
    ensures
        r@ == le32(n),
{
    let mut buf = [0u8; 4];
    LittleEndian::write_u32(&mut buf, n);
    buf.to_vec()
}

/// The two bytes of `n`, least significant first.
pub fn le_bytes_u16(n: u16) -> (r: Vec<u8>)
    ensures
        r@ == le16(n),
{
    let b0 = (n & 0xff) as u8;
    let b1 = (n >> 8) as u8;
    assert(b0 == (n % 0x100) as u8 && b1 == (n / 0x100) as u8) by (bit_vector)
        requires
            b0 == (n & 0xff) as u8,
            b1 == (n >> 8) as u8,
    ;
    let r = vec![b0, b1];
    assert(r@ =~= le16(n));
    r
}

/// The eight bytes of `n`, least significant first.
pub fn le_bytes_u64(n: u64) -> (r: Vec<u8>)
    ensures
        r@ == le64(n),
{
    let mut r: Vec<u8> = Vec::new();
    let mut k: u64 = 0;
    while k < 8
        invariant
            k <= 8,
            r@.len() == k,
            forall|j: int| 0 <= j < k ==> r@[j] == le64(n)[j],
        decreases 8 - k,
    {
        let b = ((n >> (8 * k)) & 0xff) as u8;
        assert(b == le64(n)[k as int]) by {
            assert(k == 0 ==> b == (n % 0x100) as u8) by (bit_vector)
                requires
                    b == ((n >> (8 * k)) & 0xff) as u8,
            ;
            assert(k == 1 ==> b == (n / 0x100 % 0x100) as u8) by (bit_vector)
                requires
                    b == ((n >> (8 * k)) & 0xff) as u8,
            ;
            assert(k == 2 ==> b == (n / 0x1_0000 % 0x100) as u8) by (bit_vector)
                requires
                    b == ((n >> (8 * k)) & 0xff) as u8,
            ;
            assert(k == 3 ==> b == (n / 0x100_0000 % 0x100) as u8) by (bit_vector)
                requires
                    b == ((n >> (8 * k)) & 0xff) as u8,
            ;
            assert(k == 4 ==> b == (n / 0x1_0000_0000 % 0x100) as u8) by (bit_vector)
                requires
                    b == ((n >> (8 * k)) & 0xff) as u8,
            ;
            assert(k == 5 ==> b == (n / 0x100_0000_0000 % 0x100) as u8) by (bit_vector)
                requires
                    b == ((n >> (8 * k)) & 0xff) as u8,
            ;
            assert(k == 6 ==> b == (n / 0x1_0000_0000_0000 % 0x100) as u8) by (bit_vector)
                requires
                    b == ((n >> (8 * k)) & 0xff) as u8,
            ;
            assert(k == 7 ==> b == (n / 0x100_0000_0000_0000) as u8) by (bit_vector)
                requires
                    b == ((n >> (8 * k)) & 0xff) as u8,
            ;
        }
        r.push(b);
        k = k + 1;
    }
    assert(r@ =~= le64(n));
    r
}

} // verus!
