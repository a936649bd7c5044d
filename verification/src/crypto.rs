//! The secure-blob codec: gzip, then Argon2id key derivation, then
//! XChaCha20-Poly1305, with the salt and the sealed data carried as base64.
//!
//! Wire format: `salt = base64(16 bytes)` and
//! `data = base64(nonce[24] || ciphertext || tag[16])`. The key is
//! Argon2id(m = 65536 KiB, t = 3, p = 1, 32 bytes, version 0x13) over the
//! password's UTF-8 bytes directly followed by the keyfile's bytes. The two
//! are joined without a separator, so two different pairs of password and
//! keyfile can give the same key; the format is kept as it is deployed.
use crate::bytes::append_bytes;
use crate::error::CryptoError;
use crate::primitives::aead_opening;
use crate::primitives::aead_sealing;
use crate::primitives::argon2_accepts;
use crate::primitives::argon2id;
use crate::primitives::argon2id_hash;
use crate::primitives::base64_decode;
use crate::primitives::base64_decoding;
use crate::primitives::base64_encode;
use crate::primitives::base64_encoding;
use crate::primitives::encodable_len;
use crate::primitives::gzip_compress;
use crate::primitives::gzip_decoding;
use crate::primitives::gzip_decompress;
use crate::primitives::gzip_encoding;
use crate::primitives::random_bytes;
use crate::primitives::text_from_utf8;
use crate::primitives::wipe_array;
use crate::primitives::wipe_vec;
use crate::primitives::xchacha20poly1305_open;
use crate::primitives::xchacha20poly1305_seal;
use vstd::prelude::*;
use vstd::slice::slice_subrange;
use vstd::string::StringSliceAdditionalSpecFns;
use vstd::utf8::*;

verus! {

/// Length of the random salt, in bytes.
pub const SALT_LENGTH: usize = 16;

/// Length of the random nonce, in bytes.
pub const NONCE_LENGTH: usize = 24;

/// Length of the derived key, in bytes.
pub const KEY_LENGTH: usize = 32;

/// Length of the integrity tag that follows the ciphertext, in bytes.
pub const TAG_LENGTH: usize = 16;

/// Argon2 memory cost in KiB (64 MiB).
pub const ARGON2_M_COST: u32 = 65536;

/// Argon2 number of passes.
pub const ARGON2_T_COST: u32 = 3;

/// Argon2 degree of parallelism.
pub const ARGON2_P_COST: u32 = 1;

/// A sealed payload: the base64 salt and the base64 of
/// `nonce || ciphertext || tag`.
#[derive(Debug)]
pub struct CryptoResult {
    pub salt: String,
    pub data: String,
}

/// The text of an optional borrowed string.
pub open spec fn opt_text(text: Option<&str>) -> Option<Seq<char>> {
    match text {
        Some(t) => Some(t@),
        None => None,
    }
}

/// The text of an optional owned string.
pub open spec fn opt_string_text(text: Option<String>) -> Option<Seq<char>> {
    match text {
        Some(t) => Some(t@),
        None => None,
    }
}

/// The secret that the key is derived from: the password's UTF-8 bytes
/// directly followed by the bytes of the keyfile, if there is one. `None`
/// where the keyfile is not base64.
pub open spec fn kdf_secret(password: Seq<char>, keyfile: Option<Seq<char>>) -> Option<Seq<u8>> {
    match keyfile {
        None => Some(encode_utf8(password)),
        Some(text) => match base64_decoding(text) {
            Some(bytes) => Some(encode_utf8(password) + bytes),
            None => None,
        },
    }
}

/// The key for a password, a salt and an optional keyfile.
pub open spec fn derived_key(password: Seq<char>, salt: Seq<u8>, keyfile: Option<Seq<char>>) -> Result<
    Seq<u8>,
    CryptoError,
> {
    match kdf_secret(password, keyfile) {
        None => Err(CryptoError::InvalidInput),
        Some(secret) => match argon2id_hash(
            secret,
            salt,
            ARGON2_M_COST,
            ARGON2_T_COST,
            ARGON2_P_COST,
            KEY_LENGTH as nat,
        ) {
            Some(key) => Ok(key),
            None => Err(CryptoError::KdfFailure),
        },
    }
}

/// Whether a key is owed: the keyfile, if there is one, is base64, and Argon2
/// accepts the secret and the salt, which must have at least 8 bytes.
pub open spec fn key_is_owed(password: Seq<char>, salt: Seq<u8>, keyfile: Option<Seq<char>>) -> bool {
    match kdf_secret(password, keyfile) {
        None => false,
        Some(secret) => argon2_accepts(
            secret.len(),
            salt.len(),
            ARGON2_M_COST,
            ARGON2_T_COST,
            ARGON2_P_COST,
            KEY_LENGTH as nat,
        ),
    }
}

/// The data string for a plaintext under a key and a nonce.
pub open spec fn sealed_blob(plaintext: Seq<u8>, key: Seq<u8>, nonce: Seq<u8>) -> Result<
    Seq<char>,
    CryptoError,
> {
    match aead_sealing(key, nonce, plaintext) {
        Some(sealed) => if encodable_len((nonce + sealed).len()) {
            Ok(base64_encoding(nonce + sealed))
        } else {
            Err(CryptoError::EncryptionFailure)
        },
        None => Err(CryptoError::EncryptionFailure),
    }
}

/// The plaintext of a data string under a key.
pub open spec fn opened_blob(data_b64: Seq<char>, key: Seq<u8>) -> Result<Seq<u8>, CryptoError> {
    match base64_decoding(data_b64) {
        None => Err(CryptoError::InvalidBase64),
        Some(combined) => if combined.len() < NONCE_LENGTH {
            Err(CryptoError::MalformedInput)
        } else {
            match aead_opening(
                key,
                combined.subrange(0, NONCE_LENGTH as int),
                combined.subrange(NONCE_LENGTH as int, combined.len() as int),
            ) {
                Some(plaintext) => Ok(plaintext),
                None => Err(CryptoError::AuthenticationFailure),
            }
        },
    }
}

/// The layout of a data string: it decodes to the nonce, then the ciphertext,
/// as long as the plaintext, then the tag of 16 bytes.
pub open spec fn data_layout(
    data_b64: Seq<char>,
    plaintext: Seq<u8>,
    key: Seq<u8>,
    nonce: Seq<u8>,
) -> bool {
    &&& aead_sealing(key, nonce, plaintext) is Some
    &&& aead_sealing(key, nonce, plaintext)->0.len() == plaintext.len() + TAG_LENGTH
    &&& base64_decoding(data_b64) == Some(nonce + aead_sealing(key, nonce, plaintext)->0)
}

/// The layout of a sealed payload: the salt string decodes to the salt, and
/// the data string has the layout of the compressed payload sealed under the
/// derived key.
pub open spec fn payload_layout(
    salt_b64: Seq<char>,
    data_b64: Seq<char>,
    payload: Seq<char>,
    password: Seq<char>,
    keyfile: Option<Seq<char>>,
    salt: Seq<u8>,
    nonce: Seq<u8>,
) -> bool {
    &&& base64_decoding(salt_b64) == Some(salt)
    &&& gzip_encoding(encode_utf8(payload)) is Some
    &&& derived_key(password, salt, keyfile) is Ok
    &&& data_layout(
        data_b64,
        gzip_encoding(encode_utf8(payload))->0,
        derived_key(password, salt, keyfile)->Ok_0,
        nonce,
    )
}

/// The salt string and data string for a payload, given the salt and the
/// nonce that were drawn.
pub open spec fn encoded_payload(
    payload: Seq<char>,
    password: Seq<char>,
    keyfile: Option<Seq<char>>,
    salt: Seq<u8>,
    nonce: Seq<u8>,
) -> Result<(Seq<char>, Seq<char>), CryptoError> {
    match gzip_encoding(encode_utf8(payload)) {
        None => Err(CryptoError::CompressionFailure),
        Some(compressed) => match derived_key(password, salt, keyfile) {
            Err(e) => Err(e),
            Ok(key) => match sealed_blob(compressed, key, nonce) {
                Err(e) => Err(e),
                Ok(data) => Ok((base64_encoding(salt), data)),
            },
        },
    }
}

/// The payload that a salt string and a data string hold under a password and
/// an optional keyfile. Authentication comes before decompression, and
/// decompression before the text is decoded.
pub open spec fn decoded_payload(
    salt_b64: Seq<char>,
    data_b64: Seq<char>,
    password: Seq<char>,
    keyfile: Option<Seq<char>>,
) -> Result<Seq<char>, CryptoError> {
    match base64_decoding(salt_b64) {
        None => Err(CryptoError::InvalidBase64),
        Some(salt) => match derived_key(password, salt, keyfile) {
            Err(e) => Err(e),
            Ok(key) => match opened_blob(data_b64, key) {
                Err(e) => Err(e),
                Ok(compressed) => match gzip_decoding(compressed) {
                    None => Err(CryptoError::DecompressionFailure),
                    Some(bytes) => if valid_utf8(bytes) {
                        Ok(decode_utf8(bytes))
                    } else {
                        Err(CryptoError::TextDecodeFailure)
                    },
                },
            },
        },
    }
}

/// Derives the 32-byte key from a password, a salt and an optional base64
/// keyfile. A key is returned exactly when the keyfile is base64 and Argon2
/// accepts the lengths: every salt of 8 bytes or more gives one. The buffer
/// that held the secret is wiped before the function returns.
pub fn derive_key(password: &str, salt: &[u8], keyfile_b64: Option<&str>) -> (result: Result<
    [u8; 32],
    CryptoError,
>)
    ensures
        match result {
            Ok(key) => derived_key(password@, salt@, opt_text(keyfile_b64)) == Ok::<
                Seq<u8>,
                CryptoError,
            >(key@),
            Err(e) => derived_key(password@, salt@, opt_text(keyfile_b64)) == Err::<
                Seq<u8>,
                CryptoError,
            >(e),
        },
        result is Ok <==> key_is_owed(password@, salt@, opt_text(keyfile_b64)),
{
    let mut secret: Vec<u8> = Vec::new();
    append_bytes(&mut secret, password.as_bytes());
    match keyfile_b64 {
        Some(text) => match base64_decode(text) {
            Ok(mut keyfile) => {
                append_bytes(&mut secret, keyfile.as_slice());
                wipe_vec(&mut keyfile);
            },
            Err(_) => {
                wipe_vec(&mut secret);
                return Err(CryptoError::InvalidInput);
            },
        },
        None => {},
    }
    let hashed = argon2id::<32>(
        secret.as_slice(),
        salt,
        ARGON2_M_COST,
        ARGON2_T_COST,
        ARGON2_P_COST,
    );
    wipe_vec(&mut secret);
    match hashed {
        Ok(key) => Ok(key),
        Err(_) => Err(CryptoError::KdfFailure),
    }
}

/// Seals `plaintext` under `key` with the given nonce and returns
/// `base64(nonce || ciphertext || tag)`. What it returns decodes to the nonce
/// followed by the ciphertext and the tag, `24 + plaintext.len() + 16` bytes
/// in all, and opens to the plaintext under the same key.
pub fn encrypt_with_nonce(plaintext: &[u8], key: &[u8; 32], nonce: &[u8; 24]) -> (result: Result<
    String,
    CryptoError,
>)
    ensures
        match result {
            Ok(data) => {
                &&& sealed_blob(plaintext@, key@, nonce@) == Ok::<Seq<char>, CryptoError>(data@)
                &&& aead_sealing(key@, nonce@, plaintext@) is Some
                &&& aead_sealing(key@, nonce@, plaintext@)->0.len() == plaintext@.len()
                    + TAG_LENGTH
                &&& base64_decoding(data@) == Some(
                    nonce@ + aead_sealing(key@, nonce@, plaintext@)->0,
                )
                &&& opened_blob(data@, key@) == Ok::<Seq<u8>, CryptoError>(plaintext@)
                &&& data@.len() == (NONCE_LENGTH + plaintext@.len() + TAG_LENGTH + 2) / 3 * 4
            },
            Err(e) => sealed_blob(plaintext@, key@, nonce@) == Err::<Seq<char>, CryptoError>(e),
        },
{
    let sealed = match xchacha20poly1305_seal(key, nonce, plaintext) {
        Ok(sealed) => sealed,
        Err(e) => return Err(e),
    };
    let mut combined: Vec<u8> = Vec::new();
    append_bytes(&mut combined, nonce.as_slice());
    append_bytes(&mut combined, sealed.as_slice());
    if combined.len() > usize::MAX / 8 {
        return Err(CryptoError::EncryptionFailure);
    }
    let data = base64_encode(combined.as_slice());
    proof {
        assert(combined@.subrange(0, NONCE_LENGTH as int) =~= nonce@);
        assert(combined@.subrange(NONCE_LENGTH as int, combined@.len() as int) =~= sealed@);
    }
    Ok(data)
}

/// Seals `plaintext` under `key` with a fresh random nonce. Whatever nonce was
/// drawn, the result is what [`encrypt_with_nonce`] gives for it, in success
/// and in failure.
pub fn encrypt(plaintext: &[u8], key: &[u8; 32]) -> (result: Result<String, CryptoError>)
    ensures
        exists|nonce: Seq<u8>|
            {
                &&& nonce.len() == NONCE_LENGTH
                &&& match result {
                    Ok(data) => {
                        &&& #[trigger] sealed_blob(plaintext@, key@, nonce) == Ok::<
                            Seq<char>,
                            CryptoError,
                        >(data@)
                        &&& data_layout(data@, plaintext@, key@, nonce)
                    },
                    Err(e) => sealed_blob(plaintext@, key@, nonce) == Err::<
                        Seq<char>,
                        CryptoError,
                    >(e),
                }
            },
        match result {
            Ok(data) => opened_blob(data@, key@) == Ok::<Seq<u8>, CryptoError>(plaintext@),
            Err(e) => e == CryptoError::EncryptionFailure,
        },
{
    let nonce = random_bytes::<24>();
    let result = encrypt_with_nonce(plaintext, key, &nonce);
    proof {
        let _ = sealed_blob(plaintext@, key@, nonce@);
    }
    result
}

/// Opens `base64(nonce || ciphertext || tag)` under `key`. The tag is checked
/// before any plaintext is returned, and every failure of that check is the
/// same error.
pub fn decrypt(data_b64: &str, key: &[u8; 32]) -> (result: Result<Vec<u8>, CryptoError>)
    ensures
        match result {
            Ok(plaintext) => opened_blob(data_b64@, key@) == Ok::<Seq<u8>, CryptoError>(
                plaintext@,
            ),
            Err(e) => opened_blob(data_b64@, key@) == Err::<Seq<u8>, CryptoError>(e),
        },
{
    let combined = match base64_decode(data_b64) {
        Ok(combined) => combined,
        Err(_) => return Err(CryptoError::InvalidBase64),
    };
    if combined.len() < NONCE_LENGTH {
        return Err(CryptoError::MalformedInput);
    }
    let nonce = slice_subrange(combined.as_slice(), 0, NONCE_LENGTH);
    let sealed = slice_subrange(combined.as_slice(), NONCE_LENGTH, combined.len());
    xchacha20poly1305_open(key, nonce, sealed)
}

/// Seals a payload with the salt and the nonce that the caller drew:
/// compresses it, derives the key, encrypts, and encodes both strings. The
/// salt string decodes to the salt. The data string decodes to the nonce, the
/// ciphertext of the compressed payload and the tag. Both together decode to
/// the payload under the same password and keyfile. The key is wiped before
/// the function returns.
pub fn encode_with(
    payload: &str,
    password: &str,
    keyfile_b64: Option<&str>,
    salt: &[u8; 16],
    nonce: &[u8; 24],
) -> (result: Result<CryptoResult, CryptoError>)
    ensures
        match result {
            Ok(sealed) => {
                &&& encoded_payload(payload@, password@, opt_text(keyfile_b64), salt@, nonce@)
                    == Ok::<(Seq<char>, Seq<char>), CryptoError>((sealed.salt@, sealed.data@))
                &&& payload_layout(
                    sealed.salt@,
                    sealed.data@,
                    payload@,
                    password@,
                    opt_text(keyfile_b64),
                    salt@,
                    nonce@,
                )
                &&& decoded_payload(sealed.salt@, sealed.data@, password@, opt_text(keyfile_b64))
                    == Ok::<Seq<char>, CryptoError>(payload@)
            },
            Err(e) => encoded_payload(payload@, password@, opt_text(keyfile_b64), salt@, nonce@)
                == Err::<(Seq<char>, Seq<char>), CryptoError>(e),
        },
{
    broadcast use {encode_utf8_valid_utf8, encode_utf8_decode_utf8};

    let compressed = match gzip_compress(payload.as_bytes()) {
        Some(compressed) => compressed,
        None => return Err(CryptoError::CompressionFailure),
    };
    let mut key = match derive_key(password, salt.as_slice(), keyfile_b64) {
        Ok(key) => key,
        Err(e) => return Err(e),
    };
    let sealed = encrypt_with_nonce(compressed.as_slice(), &key, nonce);
    wipe_array(&mut key);
    match sealed {
        Ok(data) => Ok(CryptoResult { salt: base64_encode(salt.as_slice()), data }),
        Err(e) => Err(e),
    }
}

/// Opens a sealed payload: decodes the salt, derives the key, authenticates
/// and decrypts, then decompresses and decodes the text. The key and the
/// decrypted buffer are wiped before the function returns.
pub fn decode(salt_b64: &str, data_b64: &str, password: &str, keyfile_b64: Option<&str>) -> (result:
    Result<String, CryptoError>)
    ensures
        match result {
            Ok(payload) => decoded_payload(salt_b64@, data_b64@, password@, opt_text(keyfile_b64))
                == Ok::<Seq<char>, CryptoError>(payload@),
            Err(e) => decoded_payload(salt_b64@, data_b64@, password@, opt_text(keyfile_b64))
                == Err::<Seq<char>, CryptoError>(e),
        },
{
    let salt = match base64_decode(salt_b64) {
        Ok(salt) => salt,
        Err(_) => return Err(CryptoError::InvalidBase64),
    };
    let mut key = match derive_key(password, salt.as_slice(), keyfile_b64) {
        Ok(key) => key,
        Err(e) => return Err(e),
    };
    let opened = decrypt(data_b64, &key);
    wipe_array(&mut key);
    let mut plaintext = match opened {
        Ok(plaintext) => plaintext,
        Err(e) => return Err(e),
    };
    let decompressed = gzip_decompress(plaintext.as_slice());
    wipe_vec(&mut plaintext);
    match decompressed {
        None => Err(CryptoError::DecompressionFailure),
        Some(bytes) => match text_from_utf8(bytes) {
            Some(text) => Ok(text),
            None => Err(CryptoError::TextDecodeFailure),
        },
    }
}

/// The borrowed form of an optional string.
fn borrow_text(text: &Option<String>) -> (out: Option<&str>)
    ensures
        opt_text(out) == opt_string_text(*text),
{
    match text {
        Some(t) => Some(t.as_str()),
        None => None,
    }
}

/// What holds of a sealed payload whatever salt and nonce were drawn: it is
/// the encoding for some salt of 16 and some nonce of 24 bytes, with the
/// layout that goes with them; a failure is the failure of the encoding for
/// them.
pub open spec fn sealed_from(
    result: Result<CryptoResult, CryptoError>,
    payload: Seq<char>,
    password: Seq<char>,
    keyfile: Option<Seq<char>>,
) -> bool {
    exists|salt: Seq<u8>, nonce: Seq<u8>|
        {
            &&& salt.len() == SALT_LENGTH
            &&& nonce.len() == NONCE_LENGTH
            &&& match result {
                Ok(sealed) => {
                    &&& #[trigger] encoded_payload(payload, password, keyfile, salt, nonce) == Ok::<
                        (Seq<char>, Seq<char>),
                        CryptoError,
                    >((sealed.salt@, sealed.data@))
                    &&& payload_layout(
                        sealed.salt@,
                        sealed.data@,
                        payload,
                        password,
                        keyfile,
                        salt,
                        nonce,
                    )
                },
                Err(e) => encoded_payload(payload, password, keyfile, salt, nonce) == Err::<
                    (Seq<char>, Seq<char>),
                    CryptoError,
                >(e),
            }
        }
}

/// Seals a payload under a password and an optional base64 keyfile, with a
/// fresh random salt and nonce. The result is the encoding for the salt and
/// nonce that were drawn, and it restores to the payload under the same
/// password and keyfile.
pub fn crypto_create(json_payload: String, password: String, keyfile_b64: Option<String>) -> (result:
    Result<CryptoResult, CryptoError>)
    ensures
        sealed_from(result, json_payload@, password@, opt_string_text(keyfile_b64)),
        match result {
            Ok(sealed) => decoded_payload(
                sealed.salt@,
                sealed.data@,
                password@,
                opt_string_text(keyfile_b64),
            ) == Ok::<Seq<char>, CryptoError>(json_payload@),
            Err(_) => true,
        },
{
    let salt = random_bytes::<16>();
    let nonce = random_bytes::<24>();
    let result = encode_with(
        json_payload.as_str(),
        password.as_str(),
        borrow_text(&keyfile_b64),
        &salt,
        &nonce,
    );
    proof {
        let _ = encoded_payload(
            json_payload@,
            password@,
            opt_string_text(keyfile_b64),
            salt@,
            nonce@,
        );
    }
    result
}

/// Restores the payload that [`crypto_create`] sealed.
pub fn crypto_restore(
    salt_b64: String,
    encrypted_b64: String,
    password: String,
    keyfile_b64: Option<String>,
) -> (result: Result<String, CryptoError>)
    ensures
        match result {
            Ok(payload) => decoded_payload(
                salt_b64@,
                encrypted_b64@,
                password@,
                opt_string_text(keyfile_b64),
            ) == Ok::<Seq<char>, CryptoError>(payload@),
            Err(e) => decoded_payload(
                salt_b64@,
                encrypted_b64@,
                password@,
                opt_string_text(keyfile_b64),
            ) == Err::<Seq<char>, CryptoError>(e),
        },
{
    decode(
        salt_b64.as_str(),
        encrypted_b64.as_str(),
        password.as_str(),
        borrow_text(&keyfile_b64),
    )
}

/// Seals a vault or instructions document; the same pipeline as
/// [`crypto_create`].
pub fn crypto_encrypt_blob(json: String, password: String, keyfile_b64: Option<String>) -> (result:
    Result<CryptoResult, CryptoError>)
    ensures
        sealed_from(result, json@, password@, opt_string_text(keyfile_b64)),
        match result {
            Ok(sealed) => decoded_payload(
                sealed.salt@,
                sealed.data@,
                password@,
                opt_string_text(keyfile_b64),
            ) == Ok::<Seq<char>, CryptoError>(json@),
            Err(_) => true,
        },
{
    crypto_create(json, password, keyfile_b64)
}

/// Opens a vault or instructions document; the same pipeline as
/// [`crypto_restore`].
pub fn crypto_decrypt_blob(
    salt_b64: String,
    data_b64: String,
    password: String,
    keyfile_b64: Option<String>,
) -> (result: Result<String, CryptoError>)
    ensures
        match result {
            Ok(payload) => decoded_payload(
                salt_b64@,
                data_b64@,
                password@,
                opt_string_text(keyfile_b64),
            ) == Ok::<Seq<char>, CryptoError>(payload@),
            Err(e) => decoded_payload(
                salt_b64@,
                data_b64@,
                password@,
                opt_string_text(keyfile_b64),
            ) == Err::<Seq<char>, CryptoError>(e),
        },
{
    crypto_restore(salt_b64, data_b64, password, keyfile_b64)
}

} // verus!
