//! Writing into a region of memory that the caller lends.

use crate::ffi::ffi_buffer_bytes;
use neotron_ffi::FfiBuffer;
use vstd::prelude::*;

verus! {

/// The smaller of two lengths.
pub open spec fn shorter(a: int, b: int) -> int {
    if a <= b {
        a
    } else {
        b
    }
}

/// Copy as much of `data` as fits into `region`, from the start of both.
///
/// Returns how many bytes were written: all of `data` where `region` is at
/// least as long, the length of `region` otherwise. The bytes of `region`
/// behind those written keep their values, and its length never changes.
pub fn write_bounded(region: &mut [u8], data: &[u8]) -> (written: usize)
    ensures
        written == shorter(old(region)@.len() as int, data@.len() as int),
        data@.len() >= old(region)@.len() ==> written == old(region)@.len(),
        final(region)@.len() == old(region)@.len(),
        final(region)@ == data@.take(written as int) + old(region)@.skip(written as int),
{
    let count: usize = if data.len() <= region.len() {
        data.len()
    } else {
        region.len()
    };
    let mut i: usize = 0;
    while i < count
        invariant
            i <= count,
            count <= data@.len(),
            count <= region@.len(),
            region@.len() == old(region)@.len(),
            region@ == data@.take(i as int) + old(region)@.skip(i as int),
        decreases count - i,
    {
        region[i] = data[i];
        i += 1;
        assert(region@ =~= data@.take(i as int) + old(region)@.skip(i as int));
    }
    count
}

/// Copy as much of `data` as fits into a buffer that the caller lent, from
/// the start of both.
///
/// Returns how many bytes were written, which is never more than the buffer
/// holds. The bytes of the buffer behind those written keep their values.
pub fn fill_buffer(buffer: &mut FfiBuffer<'_>, data: &[u8]) -> (written: usize)
    ensures
        written == shorter(ffi_buffer_bytes(*old(buffer)).len() as int, data@.len() as int),
        data@.len() >= ffi_buffer_bytes(*old(buffer)).len() ==> written == ffi_buffer_bytes(
            *old(buffer),
        ).len(),
        ffi_buffer_bytes(*final(buffer)).len() == ffi_buffer_bytes(*old(buffer)).len(),
        ffi_buffer_bytes(*final(buffer)) == data@.take(written as int) + ffi_buffer_bytes(
            *old(buffer),
        ).skip(written as int),
{
    match buffer.as_mut_slice() {
        Some(region) => write_bounded(region, data),
        None => 0,
    }
}

} // verus!
