use vstd::prelude::*;

use crate::error::FFXIVError;

verus! {

/// What raw DEFLATE decoding (no zlib or gzip wrapping) makes of `data`:
/// the decoded bytes, or `None` where `data` is not a valid stream.
pub uninterp spec fn raw_inflate(data: Seq<u8>) -> Option<Seq<u8>>;

/// Relies on flate2's `read::DeflateDecoder`, read to its end: it decodes
/// one raw DEFLATE stream, stops at the stream's end whatever bytes follow
/// (frames carry padding), and fails on a corrupt or truncated stream. The
/// output depends on the input bytes alone; `capacity` only sizes the first
/// allocation.
#[verifier::external_body]
fn inflate(data: &Vec<u8>, capacity: usize) -> (r: Option<Vec<u8>>)
    ensures
        match r {
            Some(v) => raw_inflate(data@) == Some(v@),
            None => raw_inflate(data@) == None::<Seq<u8>>,
        },
{
    let mut out = Vec::<u8>::with_capacity(capacity);
    let mut z = flate2::read::DeflateDecoder::new(&data[..]);
    match std::io::Read::read_to_end(&mut z, &mut out) {
        Ok(_) => Some(out),
        Err(_) => None,
    }
}

/// The decoded contents of a compressed block.
pub open spec fn inflated(data: Seq<u8>) -> Result<Seq<u8>, FFXIVError> {
    match raw_inflate(data) {
        Some(d) => Ok(d),
        None => Err(FFXIVError::CorruptStream),
    }
}

/// Decompresses a raw DEFLATE stream; `size` is the expected size of the
/// output, used to reserve room for it.
pub fn decompress(compressed: &Vec<u8>, size: u32) -> (r: Result<Vec<u8>, FFXIVError>)
    ensures
        match r {
            Ok(v) => inflated(compressed@) == Ok::<Seq<u8>, FFXIVError>(v@),
            Err(e) => inflated(compressed@) == Err::<Seq<u8>, FFXIVError>(e),
        },
{
    match inflate(compressed, size as usize) {
        Some(v) => Ok(v),
        None => Err(FFXIVError::CorruptStream),
    }
}

} // verus!
