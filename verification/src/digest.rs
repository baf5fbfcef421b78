//! Content fingerprints and the base64 text in which bytes travel.

use vstd::prelude::*;
use sha2::Digest;
use vstd::utf8::encode_utf8;
use crate::error::SyncError;

verus! {

/// Length in bytes of a SHA-256 digest.
pub const DIGEST_LEN: usize = 32;

/// The SHA-256 digest of `data`, as the `sha2` crate computes it.
pub uninterp spec fn sha256(data: Seq<u8>) -> Seq<u8>;

/// The base64 text of `data`, as the `base64` crate encodes it with the
/// standard alphabet and padding.
pub uninterp spec fn base64_text(data: Seq<u8>) -> Seq<char>;

/// What the `base64` crate decodes `text` to: the bytes, or `None` where
/// it refuses `text`.
pub uninterp spec fn base64_bytes(text: Seq<char>) -> Option<Seq<u8>>;

/// Whether the base64 text of `len` bytes has a length that fits in `usize`.
pub open spec fn base64_fits(len: nat) -> bool {
    4 * (len / 3) + 4 <= usize::MAX
}

/// Whether `text` is short enough to be decoded: its UTF-8 form and seven
/// bytes more can be counted in `usize`.
pub open spec fn decodable(text: Seq<char>) -> bool {
    encode_utf8(text).len() + 7 <= usize::MAX
}

/// The fingerprint by which two files are taken to be equal: the base64
/// text of the SHA-256 digest of the content.
pub open spec fn content_hash_of(data: Seq<u8>) -> Seq<char> {
    base64_text(sha256(data))
}

/// `base64::DecodeError`, carried from the decoder to where it becomes an
/// error of this library. Nothing is read from it.
#[verifier::external_type_specification]
#[verifier::external_body]
pub struct ExBase64DecodeError(base64::DecodeError);

/// `sha2::Sha256` run over `data` in one piece (`new`, `update`,
/// `finalize`). The digest is named by [`sha256`]; that it has 32 bytes is
/// the one thing claimed of its content.
#[verifier::external_body]
fn sha256_digest(data: &[u8]) -> (digest: Vec<u8>)
    ensures
        digest@ == sha256(data@),
        digest@.len() == DIGEST_LEN,
{
    let mut hasher = sha2::Sha256::new();
    hasher.update(data);
    hasher.finalize().to_vec()
}

/// `base64::encode`. The text is named by [`base64_text`]. The call panics
/// where the length of the text overflows, which `requires` leaves out.
#[verifier::external_body]
pub(crate) fn base64_encode(data: &[u8]) -> (text: String)
    requires
        base64_fits(data@.len()),
    ensures
        text@ == base64_text(data@),
{
    base64::encode(data)
}

/// `base64::decode`. The outcome is named by [`base64_bytes`]. The call
/// panics where the length of the text plus seven overflows, which
/// `requires` leaves out.
#[verifier::external_body]
fn base64_decode(text: &str) -> (decoded: Result<Vec<u8>, base64::DecodeError>)
    requires
        decodable(text@),
    ensures
        match base64_bytes(text@) {
            Some(bytes) => decoded is Ok && decoded->Ok_0@ == bytes,
            None => decoded is Err,
        },
{
    base64::decode(text)
}

/// Returns the content fingerprint of `data`.
pub fn content_hash(data: &[u8]) -> (hash: String)
    ensures
        hash@ == content_hash_of(data@),
{
    let digest = sha256_digest(data);
    base64_encode(digest.as_slice())
}

/// Decodes base64 text. Text that is not base64, or too long to be
/// measured, is a [`SyncError::Decode`].
pub fn decode(text: &str) -> (decoded: Result<Vec<u8>, SyncError>)
    ensures
        match decoded {
            Ok(bytes) => decodable(text@) && base64_bytes(text@) == Some(bytes@),
            Err(e) => e == SyncError::Decode && !(decodable(text@) && base64_bytes(text@) is Some),
        },
{
    if text.as_bytes().len() > usize::MAX - 7 {
        return Err(SyncError::Decode);
    }
    match base64_decode(text) {
        Ok(bytes) => Ok(bytes),
        Err(_) => Err(SyncError::Decode),
    }
}

} // verus!
