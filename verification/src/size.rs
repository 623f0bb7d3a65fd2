//! Sizes as listing pages write them, such as `4.1 GB`, read by `bytesize`.

use vstd::prelude::*;

verus! {

/// The number of bytes that `text` names, as `bytesize` reads it, or the
/// message with which it refuses the text.
pub uninterp spec fn byte_size_of(text: Seq<char>) -> Result<u64, Seq<char>>;

/// `ByteSize::from_str`, and the bytes of the size that it gives.
#[verifier::external_body]
pub(crate) fn read_byte_size(text: &str) -> (r: Result<u64, String>)
    ensures
        size_view(r) == byte_size_of(text@),
{
    text.parse::<bytesize::ByteSize>().map(|size| size.as_u64())
}

/// A size, or the message for none, as plain values.
pub open spec fn size_view(r: Result<u64, String>) -> Result<u64, Seq<char>> {
    match r {
        Ok(bytes) => Ok(bytes),
        Err(message) => Err(message@),
    }
}

} // verus!
