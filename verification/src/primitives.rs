//! The encodings, the digest and the signature that the assertion is made
//! of. Other crates compute them; what is stated of them here is believed,
//! not proved.

use rsa::pkcs8::DecodePrivateKey;
use vstd::prelude::*;

verus! {

/// An RSA private key. Nothing is known of what it holds.
#[verifier::external_type_specification]
#[verifier::external_body]
pub struct ExRsaPrivateKey(rsa::RsaPrivateKey);

/// Why a text is no base64.
#[verifier::external_type_specification]
#[verifier::external_body]
pub struct ExDecodeError(base64::DecodeError);

/// Why bytes are no PKCS#8 key.
#[verifier::external_type_specification]
#[verifier::external_body]
pub struct ExPkcs8Error(rsa::pkcs8::Error);

/// Why a key did not sign.
#[verifier::external_type_specification]
#[verifier::external_body]
pub struct ExRsaError(rsa::Error);

/// The base64 text of `data` in the URL-safe alphabet, without padding.
pub uninterp spec fn base64url_nopad(data: Seq<u8>) -> Seq<char>;

/// The bytes that the base64 `text` stands for, in the standard alphabet with
/// padding; `None` where it is no such text.
pub uninterp spec fn base64_decoding(text: Seq<u8>) -> Option<Seq<u8>>;

/// The SHA-256 digest of `data`.
pub uninterp spec fn sha256(data: Seq<u8>) -> Seq<u8>;

/// The RSA private key that the PKCS#8 document `der` holds; `None` where it
/// holds none.
pub uninterp spec fn pkcs8_rsa_key(der: Seq<u8>) -> Option<rsa::RsaPrivateKey>;

/// The RSASSA-PKCS1-v1_5 signature of `key` over a SHA-256 `digest`; `None`
/// where the key cannot sign it.
pub uninterp spec fn pkcs1v15_sha256_signature(key: rsa::RsaPrivateKey, digest: Seq<u8>) -> Option<
    Seq<u8>,
>;

/// A character of the URL-safe base64 alphabet: a letter, a digit, `-` or `_`.
pub open spec fn is_base64url_char(c: char) -> bool {
    ||| 'A' <= c <= 'Z'
    ||| 'a' <= c <= 'z'
    ||| '0' <= c <= '9'
    ||| c == '-'
    ||| c == '_'
}

/// Calls `base64::encode_config` with the URL-safe character set and padding
/// switched off. The text it returns depends on the bytes alone, and every
/// character of it comes from the URL-safe alphabet. It panics only where
/// the length of the text overflows `usize`, and no slice is that long.
#[verifier::external_body]
pub(crate) fn base64url_encode(data: &[u8]) -> (text: String)
    ensures
        text@ == base64url_nopad(data@),
        forall|i: int| 0 <= i < text@.len() ==> is_base64url_char(#[trigger] text@[i]),
{
    base64::encode_config(data, base64::Config::new(base64::CharacterSet::UrlSafe, false))
}

/// Calls `base64::decode`, which reads the standard alphabet with padding.
/// Whether it succeeds, and with which bytes, depends on the text alone. It
/// panics only where a length overflows `usize`, and no slice is that long.
#[verifier::external_body]
pub(crate) fn base64_decode(text: &[u8]) -> (r: Result<Vec<u8>, base64::DecodeError>)
    ensures
        match r {
            Ok(bytes) => base64_decoding(text@) == Some(bytes@),
            Err(_) => base64_decoding(text@) is None,
        },
{
    base64::decode(text)
}

/// Calls `hmac_sha256::Hash::hash`: the SHA-256 digest of `data`, 32 bytes.
#[verifier::external_body]
pub(crate) fn sha256_digest(data: &[u8]) -> (digest: [u8; 32])
    ensures
        digest@ == sha256(data@),
{
    hmac_sha256::Hash::hash(data)
}

/// Calls `RsaPrivateKey::from_pkcs8_der`, which reads a PKCS#8 document and
/// checks the key it holds. Whether it succeeds, and with which key, depends
/// on the bytes alone.
#[verifier::external_body]
pub(crate) fn rsa_key_from_pkcs8(der: &[u8]) -> (r: Result<rsa::RsaPrivateKey, rsa::pkcs8::Error>)
    ensures
        match r {
            Ok(key) => pkcs8_rsa_key(der@) == Some(key),
            Err(_) => pkcs8_rsa_key(der@) is None,
        },
{
    rsa::RsaPrivateKey::from_pkcs8_der(der)
}

/// Calls `RsaPrivateKey::sign` with PKCS#1 v1.5 padding for SHA-256. It takes
/// no random number, so the signature depends on the key and the digest
/// alone. It fails where the digest is not 32 bytes long or the key is too
/// short for the padded digest.
#[verifier::external_body]
pub(crate) fn rsa_sign_sha256(key: &rsa::RsaPrivateKey, digest: &[u8]) -> (r: Result<
    Vec<u8>,
    rsa::Error,
>)
    ensures
        match r {
            Ok(signature) => pkcs1v15_sha256_signature(*key, digest@) == Some(signature@),
            Err(_) => pkcs1v15_sha256_signature(*key, digest@) is None,
        },
{
    key.sign(rsa::Pkcs1v15Sign::new::<rsa::sha2::Sha256>(), digest)
}

} // verus!
