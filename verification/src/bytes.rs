//! Numbers in network order and ranges of bytes.

use vstd::prelude::*;

verus! {

/// Two bytes in network order as a number.
pub open spec fn be16(hi: u8, lo: u8) -> u16 {
    (hi as int * 256 + lo as int) as u16
}

/// Four bytes in network order as a number.
pub open spec fn be32(a: u8, b: u8, c: u8, d: u8) -> u32 {
    (((a as int * 256 + b as int) * 256 + c as int) * 256 + d as int) as u32
}

/// Reads two bytes in network order.
pub(crate) fn read_be16(data: &[u8], at: usize) -> (n: u16)
    requires
        at + 2 <= data@.len(),
    ensures
        n == be16(data@[at as int], data@[at + 1]),
{
    let hi: u16 = data[at] as u16;
    let lo: u16 = data[at + 1] as u16;
    hi * 256 + lo
}

/// Reads four bytes in network order.
pub(crate) fn read_be32(data: &[u8], at: usize) -> (n: u32)
    requires
        at + 4 <= data@.len(),
    ensures
        n == be32(data@[at as int], data@[at + 1], data@[at + 2], data@[at + 3]),
{
    let a: u32 = data[at] as u32;
    let b: u32 = data[at + 1] as u32;
    let c: u32 = data[at + 2] as u32;
    let d: u32 = data[at + 3] as u32;
    ((a * 256 + b) * 256 + c) * 256 + d
}

/// Appends the bytes of `data` from `from` up to `to` to `target`.
pub(crate) fn append_range(target: &mut Vec<u8>, data: &[u8], from: usize, to: usize)
    requires
        from <= to <= data@.len(),
    ensures
        final(target)@ == old(target)@ + data@.subrange(from as int, to as int),
{
    let mut i: usize = from;
    while i < to
        invariant
            from <= i <= to <= data@.len(),
            target@ == old(target)@ + data@.subrange(from as int, i as int),
        decreases to - i,
    {
        target.push(data[i]);
        i = i + 1;
    }
}

} // verus!
