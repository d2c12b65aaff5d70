use vstd::prelude::*;

use crate::errors::Error;

verus! {

/// The SHA-256 digest of a byte sequence, written as lowercase hex digits.
pub uninterp spec fn sha256_hex_of(b: Seq<u8>) -> Seq<char>;

/// What zstd-decompressing a byte stream yields: the decoded bytes, or
/// nothing when the stream is not a valid zstd frame.
pub uninterp spec fn zstd_decode_of(b: Seq<u8>) -> Option<Seq<u8>>;

/// Relies on sha2::Sha256::digest: the digest depends on the bytes alone,
/// and the hex formatting writes it out digit by digit.
#[verifier::external_body]
pub fn sha256_hex(b: &Vec<u8>) -> (r: String)
    ensures
        r@ == sha256_hex_of(b@),
{
    format!("{:x}", <sha2::Sha256 as sha2::Digest>::digest(&b[..]))
}

/// Relies on zstd::stream::decode_all: whether a stream decodes, and to
/// what, depends on the bytes alone.
#[verifier::external_body]
pub fn zstd_decode(b: &Vec<u8>) -> (r: Result<Vec<u8>, Error>)
    ensures
        r matches Ok(v) ==> zstd_decode_of(b@) == Some(v@),
        r matches Err(_) ==> zstd_decode_of(b@) is None,
{
    match zstd::stream::decode_all(&b[..]) {
        Ok(v) => Ok(v),
        Err(e) => Err(Error { chain: vec![format!("Failed to decompress image stream: {}", e)] }),
    }
}

/// Whether a byte sequence's digest matches an expected hex digest.
pub fn digest_matches(bytes: &Vec<u8>, sha256: &String) -> (r: bool)
    ensures
        r == (sha256_hex_of(bytes@) == sha256@),
{
    let d = sha256_hex(bytes);
    d.eq(sha256)
}

/// The image a compressed stream stands for, when it both decodes and
/// hashes to the manifest digest; nothing otherwise.
pub open spec fn spec_verified_image(compressed: Seq<u8>, sha256: Seq<char>) -> Option<Seq<u8>> {
    match zstd_decode_of(compressed) {
        Some(raw) => if sha256_hex_of(raw) == sha256 {
            Some(raw)
        } else {
            None
        },
        None => None,
    }
}

/// Decompresses a fetched image stream and verifies it against the
/// manifest digest. Returns the decompressed image exactly when the stream
/// decodes and the digest of the decompressed bytes equals `sha256`.
pub fn decode_verified_image(compressed: &Vec<u8>, sha256: &String) -> (r: Result<Vec<u8>, Error>)
    ensures
        r matches Ok(v) ==> spec_verified_image(compressed@, sha256@) == Some(v@),
        r matches Err(_) ==> spec_verified_image(compressed@, sha256@) is None,
{
    let raw = match zstd_decode(compressed) {
        Ok(v) => v,
        Err(e) => {
            return Err(e);
        },
    };
    if digest_matches(&raw, sha256) {
        Ok(raw)
    } else {
        Err(Error::msg("Downloaded digest doesn't match reported digest on server"))
    }
}

} // verus!
