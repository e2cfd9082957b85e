//! Small helpers for reading and writing the fixed-offset binary layouts the
//! persistent records use.

use vstd::prelude::*;

verus! {

broadcast use vstd::array::group_array_axioms;

/// Copy 32 bytes out of `data` starting at `off`.
pub fn read32(data: &[u8], off: usize) -> (r: [u8; 32])
    requires
        off + 32 <= data@.len(),
    ensures
        r@ == data@.subrange(off as int, off + 32),
{
    let n = data.len();
    let mut out: [u8; 32] = [0; 32];
    let mut i: usize = 0;
    while i < 32
        invariant
            i <= 32,
            off + 32 <= n == data@.len(),
            forall|j: int| 0 <= j < i ==> out@[j] == data@[off + j],
        decreases 32 - i,
    {
        out[i] = data[off + i];
        i += 1;
    }
    assert(out@ =~= data@.subrange(off as int, off + 32));
    out
}

/// Append a 32-byte array to a byte vector.
pub fn push32(v: &mut Vec<u8>, a: &[u8; 32])
    ensures
        final(v)@ == old(v)@ + a@,
{
    let mut i: usize = 0;
    while i < 32
        invariant
            i <= 32,
            v@ == old(v)@ + a@.subrange(0, i as int),
        decreases 32 - i,
    {
        v.push(a[i]);
        assert(v@ =~= old(v)@ + a@.subrange(0, i + 1));
        i += 1;
    }
    assert(v@ =~= old(v)@ + a@);
}

/// Read a little-endian `u64` out of `data` starting at `off`.
pub fn read_u64_le(data: &[u8], off: usize) -> (r: u64)
    requires
        off + 8 <= data@.len(),
    ensures
        r == vstd::bytes::spec_u64_from_le_bytes(data@.subrange(off as int, off + 8)),
{
    let n = data.len();
    assert(off + 8 <= n);
    let s = vstd::slice::slice_subrange(data, off, off + 8);
    vstd::bytes::u64_from_le_bytes(s)
}

/// Append a `u64` in little-endian form to a byte vector.
pub fn push_u64_le(v: &mut Vec<u8>, x: u64)
    ensures
        final(v)@ == old(v)@ + vstd::bytes::spec_u64_to_le_bytes(x),
{
    let mut b = vstd::bytes::u64_to_le_bytes(x);
    v.append(&mut b);
}

/// A vector of `n` zero bytes.
pub fn zero_bytes(n: usize) -> (r: Vec<u8>)
    ensures
        r@ == Seq::<u8>::new(n as nat, |i: int| 0u8),
{
    let mut v: Vec<u8> = Vec::new();
    let mut i: usize = 0;
    while i < n
        invariant
            i <= n,
            v@ =~= Seq::<u8>::new(i as nat, |j: int| 0u8),
        decreases n - i,
    {
        v.push(0);
        i += 1;
    }
    assert(v@ =~= Seq::<u8>::new(n as nat, |i: int| 0u8));
    v
}

} // verus!
