//! Digests and encodings computed by outside crates. Each function here is
//! believed, not proved: its contract names the value that the outside
//! function returns.

use vstd::prelude::*;

verus! {

/// The HMAC (RFC 2104) over SHA-1 of `data` under `key`: 20 bytes.
pub uninterp spec fn hmac_sha1(key: Seq<u8>, data: Seq<u8>) -> Seq<u8>;

/// The MD5 digest (RFC 1321) of `data`: 16 bytes.
pub uninterp spec fn md5_digest(data: Seq<u8>) -> Seq<u8>;

/// The base64 text (RFC 4648, standard alphabet, with `=` padding) of `bytes`.
pub uninterp spec fn base64_standard(bytes: Seq<u8>) -> Seq<char>;

/// The media type that the first bytes of `data` tell, where they tell one.
pub uninterp spec fn inferred_mime_type(data: Seq<u8>) -> Option<Seq<char>>;

/// The longest key that `hmac_sha1_tag` accepts, in bytes. A key longer than
/// one SHA-1 block is hashed first, and the hash counts its input in bits
/// in a `u64`.
pub const HMAC_SHA1_MAX_KEY_LEN: u64 = 0x1fff_ffff_ffff_ffff;

/// The longest message that `hmac_sha1_tag` accepts, in bytes: the inner hash
/// also takes the 64 bytes of the padded key, and counts its input in bits
/// in a `u64`.
pub const HMAC_SHA1_MAX_DATA_LEN: u64 = 0x1fff_ffff_ffff_ffbf;

/// Calls `ring::hmac::Key::new` with `HMAC_SHA1_FOR_LEGACY_USE_ONLY`, then
/// `ring::hmac::sign`, and copies the tag out. Believed: the tag is the
/// HMAC-SHA1 of `data` under `key`, and has the 20 bytes of a SHA-1 output.
/// Both calls fail on an input whose length in bits does not fit in a `u64`;
/// the bounds leave such inputs out.
#[verifier::external_body]
pub(crate) fn hmac_sha1_tag(key: &[u8], data: &[u8]) -> (tag: Vec<u8>)
    requires
        key@.len() <= HMAC_SHA1_MAX_KEY_LEN,
        data@.len() <= HMAC_SHA1_MAX_DATA_LEN,
    ensures
        tag@ == hmac_sha1(key@, data@),
        tag@.len() == 20,
{
    let key = ring::hmac::Key::new(ring::hmac::HMAC_SHA1_FOR_LEGACY_USE_ONLY, key);
    ring::hmac::sign(&key, data).as_ref().to_vec()
}

/// Calls `md5::compute` and copies the digest out. Believed: the result is
/// the MD5 digest of `data`, 16 bytes long.
#[verifier::external_body]
pub(crate) fn md5_of(data: &[u8]) -> (digest: Vec<u8>)
    ensures
        digest@ == md5_digest(data@),
        digest@.len() == 16,
{
    md5::compute(data).0.to_vec()
}

/// Calls `infer::get`, and `mime_type` on the type that it finds. Believed:
/// whether a type is found, and its media type, depend on the bytes alone.
#[verifier::external_body]
pub(crate) fn infer_mime_type(data: &[u8]) -> (r: Option<String>)
    ensures
        match r {
            Some(mime) => inferred_mime_type(data@) == Some(mime@),
            None => inferred_mime_type(data@) is None,
        },
{
    match infer::get(data) {
        Some(kind) => Some(kind.mime_type().to_owned()),
        None => None,
    }
}

/// Calls `Engine::encode` of the base64 crate on its `STANDARD` engine.
/// Believed: the result is the padded standard base64 text of `bytes`. The
/// call fails when the length of that text does not fit in a `usize`; the
/// bound leaves such inputs out.
#[verifier::external_body]
pub(crate) fn base64_encode(bytes: &[u8]) -> (text: String)
    requires
        (bytes@.len() / 3 + 1) * 4 <= usize::MAX,
    ensures
        text@ == base64_standard(bytes@),
{
    base64::Engine::encode(&base64::engine::general_purpose::STANDARD, bytes)
}

} // verus!
