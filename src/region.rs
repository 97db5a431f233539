//! Byte regions: size checks, in-place byte copies and little-endian fields.

use vstd::bytes::*;
use vstd::prelude::*;

verus! {

/// Why an operation on a region was refused.
#[derive(Debug, Clone, Copy, PartialEq, Eq, Structural)]
pub enum OracleError {
    /// The region is smaller than the record layout that the operation needs.
    SizeMismatch,
    /// A raw write would run past the end of the region.
    OutOfBounds,
}

/// `s` with the bytes at `off .. off + b.len()` replaced by `b`.
pub open spec fn splice(s: Seq<u8>, off: int, b: Seq<u8>) -> Seq<u8> {
    Seq::new(s.len(), |i: int| if off <= i < off + b.len() { b[i - off] } else { s[i] })
}

/// `s` with a little-endian `u32` stored at `off`.
pub open spec fn with_u32(s: Seq<u8>, off: int, x: u32) -> Seq<u8> {
    splice(s, off, spec_u32_to_le_bytes(x))
}

/// `s` with a little-endian `u64` stored at `off`.
pub open spec fn with_u64(s: Seq<u8>, off: int, x: u64) -> Seq<u8> {
    splice(s, off, spec_u64_to_le_bytes(x))
}

/// `s` with a little-endian `u128` stored at `off`.
pub open spec fn with_u128(s: Seq<u8>, off: int, x: u128) -> Seq<u8> {
    splice(s, off, spec_u128_to_le_bytes(x))
}

/// The little-endian `u32` that starts at `off`.
pub open spec fn u32_at(s: Seq<u8>, off: int) -> u32 {
    spec_u32_from_le_bytes(s.subrange(off, off + 4))
}

/// The little-endian `u64` that starts at `off`.
pub open spec fn u64_at(s: Seq<u8>, off: int) -> u64 {
    spec_u64_from_le_bytes(s.subrange(off, off + 8))
}

/// The little-endian `u128` that starts at `off`.
pub open spec fn u128_at(s: Seq<u8>, off: int) -> u128 {
    spec_u128_from_le_bytes(s.subrange(off, off + 16))
}

/// Checks that a record of `size` bytes fits in `region` from `offset` on.
/// This is the only gate between raw bytes and a structured record: it fails
/// with `SizeMismatch` exactly when the region is too small.
pub fn load_account_as_mut(region: &Vec<u8>, offset: usize, size: usize) -> (r: Result<(), OracleError>)
    ensures
        r is Ok <==> offset + size <= region@.len(),
        r is Err ==> r == Err::<(), OracleError>(OracleError::SizeMismatch),
{
    if offset <= region.len() && size <= region.len() - offset {
        Ok(())
    } else {
        Err(OracleError::SizeMismatch)
    }
}

/// Copies `bytes` into `region` at `offset`, leaving every other byte alone.
pub(crate) fn copy_in(region: &mut Vec<u8>, offset: usize, bytes: &[u8])
    requires
        offset + bytes@.len() <= old(region)@.len(),
    ensures
        final(region)@ == splice(old(region)@, offset as int, bytes@),
{
    let n = bytes.len();
    let mut i: usize = 0;
    while i < n
        invariant
            n == bytes@.len(),
            offset + n <= region.len(),
            i <= n,
            region@ == splice(old(region)@, offset as int, bytes@.subrange(0, i as int)),
        decreases n - i,
    {
        region[offset + i] = bytes[i];
        i = i + 1;
        assert(region@ =~= splice(old(region)@, offset as int, bytes@.subrange(0, i as int)));
    }
    assert(bytes@.subrange(0, n as int) =~= bytes@);
}

/// Stores `x` little-endian at `offset`.
pub(crate) fn put_u32(region: &mut Vec<u8>, offset: usize, x: u32)
    requires
        offset + 4 <= old(region)@.len(),
    ensures
        final(region)@ == with_u32(old(region)@, offset as int, x),
{
    let b = u32_to_le_bytes(x);
    copy_in(region, offset, b.as_slice());
}

/// Stores `x` little-endian at `offset`.
pub(crate) fn put_u64(region: &mut Vec<u8>, offset: usize, x: u64)
    requires
        offset + 8 <= old(region)@.len(),
    ensures
        final(region)@ == with_u64(old(region)@, offset as int, x),
{
    let b = u64_to_le_bytes(x);
    copy_in(region, offset, b.as_slice());
}

/// Stores `x` little-endian at `offset`.
pub(crate) fn put_u128(region: &mut Vec<u8>, offset: usize, x: u128)
    requires
        offset + 16 <= old(region)@.len(),
    ensures
        final(region)@ == with_u128(old(region)@, offset as int, x),
{
    let b = u128_to_le_bytes(x);
    copy_in(region, offset, b.as_slice());
}

/// Copies `data` into `region` at `offset`, with no interpretation of the
/// bytes. Fails with `OutOfBounds`, and writes nothing, when `data` would run
/// past the end of the region.
pub fn write(region: &mut Vec<u8>, offset: usize, data: &Vec<u8>) -> (r: Result<(), OracleError>)
    ensures
        r is Ok <==> offset + data@.len() <= old(region)@.len(),
        r is Ok ==> final(region)@ == splice(old(region)@, offset as int, data@),
        r is Err ==> r == Err::<(), OracleError>(OracleError::OutOfBounds) && final(region)@ == old(region)@,
{
    if offset <= region.len() && data.len() <= region.len() - offset {
        copy_in(region, offset, data.as_slice());
        Ok(())
    } else {
        Err(OracleError::OutOfBounds)
    }
}

} // verus!

verus! {

/// `n` zero bytes.
pub open spec fn zeros(n: nat) -> Seq<u8> {
    Seq::new(n, |i: int| 0u8)
}

/// Appends `n` zero bytes to `rec`.
pub(crate) fn push_zeros(rec: &mut Vec<u8>, n: usize)
    ensures
        final(rec)@ == old(rec)@ + zeros(n as nat),
{
    let mut i: usize = 0;
    while i < n
        invariant
            i <= n,
            rec@ == old(rec)@ + zeros(i as nat),
        decreases n - i,
    {
        rec.push(0u8);
        i = i + 1;
        assert(rec@ =~= old(rec)@ + zeros(i as nat));
    }
}

/// Appends the little-endian bytes of `x` to `rec`.
pub(crate) fn push_u32(rec: &mut Vec<u8>, x: u32)
    ensures
        final(rec)@ == old(rec)@ + spec_u32_to_le_bytes(x),
{
    let mut b = u32_to_le_bytes(x);
    rec.append(&mut b);
}

} // verus!

verus! {

/// Appends `bytes` to `rec`.
pub(crate) fn push_bytes(rec: &mut Vec<u8>, bytes: &[u8])
    ensures
        final(rec)@ == old(rec)@ + bytes@,
{
    let mut i: usize = 0;
    while i < bytes.len()
        invariant
            i <= bytes@.len(),
            rec@ == old(rec)@ + bytes@.subrange(0, i as int),
        decreases bytes@.len() - i,
    {
        rec.push(bytes[i]);
        i = i + 1;
        assert(rec@ =~= old(rec)@ + bytes@.subrange(0, i as int));
    }
    assert(bytes@.subrange(0, i as int) =~= bytes@);
}

} // verus!

verus! {

/// A signed value stored through its unsigned bit pattern reads back unchanged.
pub proof fn lemma_signed_round_trip(a: i32, b: i64, c: i128)
    ensures
        (a as u32) as i32 == a,
        (b as u64) as i64 == b,
        (c as u128) as i128 == c,
{
    assert((a as u32) as i32 == a) by (bit_vector);
    assert((b as u64) as i64 == b) by (bit_vector);
    assert((c as u128) as i128 == c) by (bit_vector);
}

} // verus!
