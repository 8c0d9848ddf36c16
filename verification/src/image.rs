//! The TA image itself: its fixed size, its magic header, and the one
//! primitive every extraction is built from — copying a byte range out.

use vstd::prelude::*;

use crate::error::TaError;

verus! {

/// A TA image is exactly 2 MiB; anything else is a corrupted dump.
pub const TA_SIZE: usize = 2097152;

/// First byte of the TA magic header, common to all known generations.
pub const MAGIC_BYTE_0: u8 = 0xC1;

/// Second byte of the TA magic header.
pub const MAGIC_BYTE_1: u8 = 0xE9;

/// The image begins with the two TA magic bytes.
pub open spec fn magic_ok(ta: Seq<u8>) -> bool {
    &&& ta.len() >= 2
    &&& ta[0] == MAGIC_BYTE_0
    &&& ta[1] == MAGIC_BYTE_1
}

/// A well-formed image: exact TA size and the magic header in place.
pub open spec fn valid_image(ta: Seq<u8>) -> bool {
    ta.len() == TA_SIZE && magic_ok(ta)
}

/// Checks the image's size and magic header, in that order: a wrong size is
/// reported before the header is even looked at, so no extraction is ever
/// attempted on an input of the wrong length.
pub fn validate_image(ta: &[u8]) -> (r: Result<(), TaError>)
    ensures
        ta@.len() != TA_SIZE ==> r == Err::<(), TaError>(TaError::SizeMismatch),
        ta@.len() == TA_SIZE && !magic_ok(ta@) ==> r == Err::<(), TaError>(TaError::MagicMismatch),
        r is Ok <==> valid_image(ta@),
{
    if ta.len() != TA_SIZE {
        return Err(TaError::SizeMismatch);
    }
    if ta[0] != MAGIC_BYTE_0 || ta[1] != MAGIC_BYTE_1 {
        return Err(TaError::MagicMismatch);
    }
    Ok(())
}

/// Copies `length` bytes starting at `offset` out of the image.
pub fn read_ta(ta_file_content: &[u8], offset: usize, length: usize) -> (r: Vec<u8>)
    requires
        offset + length <= ta_file_content@.len(),
    ensures
        r@ == ta_file_content@.subrange(offset as int, offset + length),
{
    let total: usize = ta_file_content.len();
    let mut out: Vec<u8> = Vec::new();
    let mut i: usize = 0;
    while i < length
        invariant
            i <= length,
            offset + length <= total,
            total == ta_file_content@.len(),
            out@ =~= ta_file_content@.subrange(offset as int, offset + i),
        decreases length - i,
    {
        out.push(ta_file_content[offset + i]);
        i = i + 1;
    }
    out
}

} // verus!
