use vstd::prelude::*;

use crate::NpaError;

verus! {

/// What streaming inflate of a zlib stream yields: the decompressed bytes,
/// or nothing when the stream is malformed. Inflate is a pure function of
/// the bytes; anything after the end of the stream is ignored.
pub uninterp spec fn zlib_inflated(bytes: Seq<u8>) -> Option<Seq<u8>>;

/// Relies on flate2's `read::ZlibDecoder` with `Read::read_to_end`:
/// decompresses one whole zlib stream from the front of `data`, failing
/// exactly when the stream is malformed; the result depends on the bytes
/// alone.
#[verifier::external_body]
pub(crate) fn inflate(data: &[u8]) -> (r: Result<Vec<u8>, NpaError>)
    ensures
        r is Ok <==> zlib_inflated(data@) is Some,
        r matches Ok(v) ==> Some(v@) == zlib_inflated(data@),
        r matches Err(e) ==> e == NpaError::Inflate,
{
    let mut decoder = flate2::read::ZlibDecoder::new(data);
    let mut out: Vec<u8> = Vec::new();
    match std::io::Read::read_to_end(&mut decoder, &mut out) {
        Ok(_) => Ok(out),
        Err(_) => Err(NpaError::Inflate),
    }
}

} // verus!
