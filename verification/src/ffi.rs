//! What this library takes on trust from [`neotron_ffi`], whose types carry
//! strings and byte buffers across the boundary.

use vstd::prelude::*;

verus! {

/// The borrowed UTF-8 string of [`neotron_ffi`]: a pointer and a length.
#[verifier::external_type_specification]
#[verifier::external_body]
pub struct ExFfiString<'a>(neotron_ffi::FfiString<'a>);

/// The text that a borrowed string points at.
pub uninterp spec fn ffi_string_text(s: neotron_ffi::FfiString<'_>) -> Seq<char>;

/// `FfiString::clone` copies the pointer and the length, so the clone points
/// at the same text.
pub assume_specification<'a>[ <neotron_ffi::FfiString<'a> as Clone>::clone ](
    s: &neotron_ffi::FfiString<'a>,
) -> (copy: neotron_ffi::FfiString<'a>)
    ensures
        ffi_string_text(copy) == ffi_string_text(*s),
;

/// The borrowed, writable byte buffer of [`neotron_ffi`]: a pointer and a
/// length.
#[verifier::external_type_specification]
#[verifier::external_body]
pub struct ExFfiBuffer<'a>(neotron_ffi::FfiBuffer<'a>);

/// The bytes that a buffer points at, as `FfiBuffer::as_slice` shows them.
pub uninterp spec fn ffi_buffer_bytes(b: neotron_ffi::FfiBuffer<'_>) -> Seq<u8>;

/// `FfiBuffer::as_mut_slice` lends the buffer's bytes as a slice, so what is
/// written to the slice is what the buffer holds afterwards. A buffer with a
/// null pointer holds no bytes and lends nothing.
pub assume_specification<'a, 'b>[ neotron_ffi::FfiBuffer::<'a>::as_mut_slice ](
    buffer: &'b mut neotron_ffi::FfiBuffer<'a>,
) -> (region: Option<&'b mut [u8]>)
    ensures
        match region {
            Some(bytes) => bytes@ == ffi_buffer_bytes(*old(buffer)) && ffi_buffer_bytes(
                *final(buffer),
            ) == final(bytes)@,
            None => ffi_buffer_bytes(*old(buffer)).len() == 0 && ffi_buffer_bytes(*final(buffer))
                == ffi_buffer_bytes(*old(buffer)),
        },
;

} // verus!
