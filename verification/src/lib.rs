//! Password-protected secret blobs and the command protocol of the smartcard
//! application that stores them.
//!
//! * [`crypto`] seals a payload: gzip, Argon2id key derivation and
//!   XChaCha20-Poly1305, with base64 as the transport encoding.
//! * [`apdu`] frames card commands and classifies the status word of a response.
//! * [`smartcard`] plans the command sequences of the card operations and
//!   interprets what the card answers.
//! * [`primitives`] holds the calls into the cryptographic and encoding crates,
//!   each with the contract that the proofs rely on.
pub mod apdu;
mod bytes;
pub mod crypto;
pub mod error;
pub mod primitives;
pub mod smartcard;
