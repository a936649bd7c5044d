//! Calls into the encoding, compression, key-derivation, cipher and random
//! number crates.
//!
//! Nothing in this file is proved. Each function states what the crate it calls
//! documents; the results that only the crate can compute are given a name, and
//! the contracts of the rest of the library are stated over those names.
use crate::error::CryptoError;
use base64::Engine;
use chacha20poly1305::aead::Aead;
use chacha20poly1305::KeyInit;
use rand::RngCore;
use std::io::Read;
use std::io::Write;
use vstd::prelude::*;
use vstd::utf8::*;
use zeroize::Zeroize;

verus! {

/// The standard-alphabet, padded base64 text of `bytes`.
pub uninterp spec fn base64_encoding(bytes: Seq<u8>) -> Seq<char>;

/// The bytes that `text` stands for in padded standard base64, if it is
/// well formed.
pub uninterp spec fn base64_decoding(text: Seq<char>) -> Option<Seq<u8>>;

/// The Argon2id (version 0x13) tag of `len` bytes for a secret and a salt
/// under the given costs, where the parameters and lengths are acceptable.
pub uninterp spec fn argon2id_hash(
    secret: Seq<u8>,
    salt: Seq<u8>,
    m_cost: u32,
    t_cost: u32,
    p_cost: u32,
    len: nat,
) -> Option<Seq<u8>>;

/// XChaCha20-Poly1305 ciphertext followed by its tag, with no associated data.
pub uninterp spec fn aead_sealing(key: Seq<u8>, nonce: Seq<u8>, plaintext: Seq<u8>) -> Option<
    Seq<u8>,
>;

/// The plaintext of an XChaCha20-Poly1305 ciphertext and tag, if the tag
/// verifies under the key and nonce.
pub uninterp spec fn aead_opening(key: Seq<u8>, nonce: Seq<u8>, sealed: Seq<u8>) -> Option<
    Seq<u8>,
>;

/// The gzip stream that the compressor writes for `data` at its best level.
pub uninterp spec fn gzip_encoding(data: Seq<u8>) -> Option<Seq<u8>>;

/// The content of a gzip stream, if the decompressor accepts it.
pub uninterp spec fn gzip_decoding(stream: Seq<u8>) -> Option<Seq<u8>>;

/// The text of `bytes` with every invalid UTF-8 sequence replaced by U+FFFD.
pub uninterp spec fn lossy_text(bytes: Seq<u8>) -> Seq<char>;

/// Whether the base64 encoder can size its output for `len` input bytes.
pub open spec fn encodable_len(len: nat) -> bool {
    len <= usize::MAX / 8
}

#[verifier::external_type_specification]
#[verifier::external_body]
pub struct ExDecodeError(base64::DecodeError);

#[verifier::external_type_specification]
#[verifier::external_body]
pub struct ExArgon2Error(argon2::Error);

/// `base64::Engine::encode` on the `STANDARD` engine. The result is the named
/// encoding, has four characters for every three bytes started, and decodes
/// back to the input. The encoder panics when the output size overflows, so
/// the input length is bounded.
#[verifier::external_body]
pub(crate) fn base64_encode(bytes: &[u8]) -> (text: String)
    requires
        encodable_len(bytes@.len()),
    ensures
        text@ == base64_encoding(bytes@),
        text@.len() == (bytes@.len() + 2) / 3 * 4,
        base64_decoding(text@) == Some(bytes@),
{
    base64::engine::general_purpose::STANDARD.encode(bytes)
}

/// `base64::Engine::decode` on the `STANDARD` engine: the named decoding, or
/// the crate's error where the text is not well formed.
#[verifier::external_body]
pub(crate) fn base64_decode(text: &str) -> (result: Result<Vec<u8>, base64::DecodeError>)
    ensures
        match result {
            Ok(bytes) => base64_decoding(text@) == Some(bytes@),
            Err(_) => base64_decoding(text@) is None,
        },
{
    base64::engine::general_purpose::STANDARD.decode(text)
}

/// Whether Argon2 accepts its inputs: the costs and the output length that
/// `Params::new` checks, and the lengths of secret and salt that
/// `hash_password_into` checks.
pub open spec fn argon2_accepts(
    secret_len: nat,
    salt_len: nat,
    m_cost: u32,
    t_cost: u32,
    p_cost: u32,
    len: nat,
) -> bool {
    &&& 8 <= m_cost
    &&& p_cost * 8 <= m_cost
    &&& 1 <= t_cost
    &&& 1 <= p_cost <= 0xFF_FFFF
    &&& 4 <= len <= 0xFFFF_FFFF
    &&& secret_len <= 0xFFFF_FFFF
    &&& 8 <= salt_len <= 0xFFFF_FFFF
}

/// `argon2::Params::new` followed by `argon2::Argon2::hash_password_into` for
/// Argon2id, version 0x13, with an output of `N` bytes. The crate multiplies
/// the parallelism by eight unchecked, which bounds `p_cost`. It refuses
/// inputs that fail its checks, and for an output of at most 64 bytes, which
/// is hashed in one step, it refuses no others.
#[verifier::external_body]
pub(crate) fn argon2id<const N: usize>(
    secret: &[u8],
    salt: &[u8],
    m_cost: u32,
    t_cost: u32,
    p_cost: u32,
) -> (result: Result<[u8; N], argon2::Error>)
    requires
        p_cost <= 0x1FFF_FFFF,
    ensures
        match result {
            Ok(key) => argon2id_hash(secret@, salt@, m_cost, t_cost, p_cost, N as nat) == Some(
                key@,
            ),
            Err(_) => argon2id_hash(secret@, salt@, m_cost, t_cost, p_cost, N as nat) is None,
        },
        result is Ok ==> argon2_accepts(secret@.len(), salt@.len(), m_cost, t_cost, p_cost, N as nat),
        N <= 64 && argon2_accepts(secret@.len(), salt@.len(), m_cost, t_cost, p_cost, N as nat)
            ==> result is Ok,
{
    let params = argon2::Params::new(m_cost, t_cost, p_cost, Some(N))?;
    let hasher = argon2::Argon2::new(argon2::Algorithm::Argon2id, argon2::Version::V0x13, params);
    let mut out = [0u8; N];
    hasher.hash_password_into(secret, salt, &mut out)?;
    Ok(out)
}

/// `XChaCha20Poly1305::new_from_slice` followed by `Aead::encrypt`. A key of
/// 32 bytes is always accepted, so the only error is the cipher's own. The
/// output is the ciphertext, as long as the plaintext, followed by the tag of
/// 16 bytes, and it opens to the plaintext under the same key and nonce.
#[verifier::external_body]
pub(crate) fn xchacha20poly1305_seal(key: &[u8; 32], nonce: &[u8; 24], plaintext: &[u8]) -> (result:
    Result<Vec<u8>, CryptoError>)
    ensures
        match result {
            Ok(sealed) => {
                &&& aead_sealing(key@, nonce@, plaintext@) == Some(sealed@)
                &&& aead_opening(key@, nonce@, sealed@) == Some(plaintext@)
                &&& sealed@.len() == plaintext@.len() + 16
            },
            Err(e) => {
                &&& aead_sealing(key@, nonce@, plaintext@) is None
                &&& e == CryptoError::EncryptionFailure
            },
        },
{
    let cipher = match chacha20poly1305::XChaCha20Poly1305::new_from_slice(key) {
        Ok(cipher) => cipher,
        Err(_) => return Err(CryptoError::CipherInitFailure),
    };
    match cipher.encrypt(chacha20poly1305::XNonce::from_slice(nonce), plaintext) {
        Ok(sealed) => Ok(sealed),
        Err(_) => Err(CryptoError::EncryptionFailure),
    }
}

/// `XChaCha20Poly1305::new_from_slice` followed by `Aead::decrypt`. A key of
/// 32 bytes is always accepted, so the only error is the cipher's own, which
/// it gives for a tag that does not verify and for input shorter than a tag.
/// The nonce is converted by `XNonce::from_slice`, which panics on any length
/// but 24.
#[verifier::external_body]
pub(crate) fn xchacha20poly1305_open(key: &[u8; 32], nonce: &[u8], sealed: &[u8]) -> (result:
    Result<Vec<u8>, CryptoError>)
    requires
        nonce@.len() == 24,
    ensures
        match result {
            Ok(plaintext) => aead_opening(key@, nonce@, sealed@) == Some(plaintext@),
            Err(e) => {
                &&& aead_opening(key@, nonce@, sealed@) is None
                &&& e == CryptoError::AuthenticationFailure
            },
        },
{
    let cipher = match chacha20poly1305::XChaCha20Poly1305::new_from_slice(key) {
        Ok(cipher) => cipher,
        Err(_) => return Err(CryptoError::CipherInitFailure),
    };
    match cipher.decrypt(chacha20poly1305::XNonce::from_slice(nonce), sealed) {
        Ok(plaintext) => Ok(plaintext),
        Err(_) => Err(CryptoError::AuthenticationFailure),
    }
}

/// `flate2::write::GzEncoder` at `Compression::best()`, written to and
/// finished. The stream is the named encoding and decompresses to the input.
#[verifier::external_body]
pub(crate) fn gzip_compress(data: &[u8]) -> (result: Option<Vec<u8>>)
    ensures
        match result {
            Some(stream) => {
                &&& gzip_encoding(data@) == Some(stream@)
                &&& gzip_decoding(stream@) == Some(data@)
            },
            None => gzip_encoding(data@) is None,
        },
{
    let mut encoder = flate2::write::GzEncoder::new(Vec::new(), flate2::Compression::best());
    match encoder.write_all(data) {
        Ok(()) => encoder.finish().ok(),
        Err(_) => None,
    }
}

/// `flate2::read::GzDecoder`, read to its end: the named decoding, or nothing
/// where the decompressor rejects the stream.
#[verifier::external_body]
pub(crate) fn gzip_decompress(stream: &[u8]) -> (result: Option<Vec<u8>>)
    ensures
        match result {
            Some(data) => gzip_decoding(stream@) == Some(data@),
            None => gzip_decoding(stream@) is None,
        },
{
    let mut decoder = flate2::read::GzDecoder::new(stream);
    let mut out = Vec::new();
    match decoder.read_to_end(&mut out) {
        Ok(_) => Some(out),
        Err(_) => None,
    }
}

/// `rand::thread_rng` and `RngCore::fill_bytes`: `N` bytes of which nothing
/// is known.
#[verifier::external_body]
pub(crate) fn random_bytes<const N: usize>() -> (out: [u8; N]) {
    let mut out = [0u8; N];
    rand::thread_rng().fill_bytes(&mut out);
    out
}

/// `Zeroize::zeroize` on an array: every byte is overwritten with zero.
#[verifier::external_body]
pub(crate) fn wipe_array<const N: usize>(secret: &mut [u8; N])
    ensures
        forall|i: int| 0 <= i < N ==> final(secret)@[i] == 0u8,
{
    secret.zeroize();
}

/// `Zeroize::zeroize` on a vector: every byte and the spare capacity are
/// overwritten with zero, and the vector is left empty.
#[verifier::external_body]
pub(crate) fn wipe_vec(secret: &mut Vec<u8>)
    ensures
        final(secret)@.len() == 0,
{
    secret.zeroize();
}

/// `String::from_utf8`: the text of the bytes where they are UTF-8, nothing
/// where they are not.
#[verifier::external_body]
pub(crate) fn text_from_utf8(bytes: Vec<u8>) -> (result: Option<String>)
    ensures
        match result {
            Some(text) => valid_utf8(bytes@) && text@ == decode_utf8(bytes@),
            None => !valid_utf8(bytes@),
        },
{
    String::from_utf8(bytes).ok()
}

/// `String::from_utf8_lossy`: the named lossy text, which is the text of the
/// bytes where they are UTF-8.
#[verifier::external_body]
pub(crate) fn text_from_utf8_lossy(bytes: &[u8]) -> (text: String)
    ensures
        text@ == lossy_text(bytes@),
        valid_utf8(bytes@) ==> text@ == decode_utf8(bytes@),
{
    String::from_utf8_lossy(bytes).into_owned()
}

} // verus!
