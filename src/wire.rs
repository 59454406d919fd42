//! Big-endian integer readers over byte slices.
use vstd::prelude::*;

verus! {

/// The unsigned 16-bit big-endian value at `p[i..i + 2]`.
pub open spec fn be_u16(p: Seq<u8>, i: int) -> int {
    p[i] as int * 256 + p[i + 1] as int
}

/// The unsigned 32-bit big-endian value at `p[i..i + 4]`.
pub open spec fn be_u32(p: Seq<u8>, i: int) -> int {
    be_u16(p, i) * 65536 + be_u16(p, i + 2)
}

/// The signed (two's complement) 16-bit big-endian value at `p[i..i + 2]`.
pub open spec fn be_i16(p: Seq<u8>, i: int) -> int {
    if be_u16(p, i) >= 32768 {
        be_u16(p, i) - 65536
    } else {
        be_u16(p, i)
    }
}

/// Every byte is below 0x80.
pub open spec fn ascii_bytes(b: Seq<u8>) -> bool {
    forall|i: int| 0 <= i < b.len() ==> #[trigger] b[i] < 128
}

/// The characters whose code points are the given bytes.
pub open spec fn ascii_chars(b: Seq<u8>) -> Seq<char> {
    Seq::new(b.len(), |i: int| b[i] as char)
}

pub fn read_u16_be(p: &[u8], i: usize) -> (r: u16)
    requires
        i + 2 <= p.len(),
    ensures
        r as int == be_u16(p@, i as int),
{
    (p[i] as u16) * 256 + (p[i + 1] as u16)
}

pub fn read_u32_be(p: &[u8], i: usize) -> (r: u32)
    requires
        i + 4 <= p.len(),
    ensures
        r as int == be_u32(p@, i as int),
{
    let hi = read_u16_be(p, i) as u32;
    let lo = read_u16_be(p, i + 2) as u32;
    hi * 65536 + lo
}

pub fn read_i16_be(p: &[u8], i: usize) -> (r: i16)
    requires
        i + 2 <= p.len(),
    ensures
        r as int == be_i16(p@, i as int),
{
    let u = read_u16_be(p, i);
    if u < 32768 {
        u as i16
    } else {
        ((u - 32768) as i16) - 32767 - 1
    }
}

/// Whether every byte of `b` is ASCII.
pub fn is_ascii_bytes(b: &[u8]) -> (r: bool)
    ensures
        r == ascii_bytes(b@),
{
    let mut i: usize = 0;
    while i < b.len()
        invariant
            i <= b@.len(),
            forall|j: int| 0 <= j < i ==> #[trigger] b@[j] < 128,
        decreases b@.len() - i,
    {
        if b[i] >= 128 {
            return false;
        }
        i = i + 1;
    }
    true
}

} // verus!
