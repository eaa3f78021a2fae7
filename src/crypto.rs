//! The cryptographic primitives the secret store composes: PBKDF2 key
//! derivation, ChaCha20-Poly1305 sealing and opening, and the system RNG,
//! all provided by `ring`.
use vstd::prelude::*;

use ring::aead::{Aad, LessSafeKey, Nonce, UnboundKey, CHACHA20_POLY1305};
use ring::rand::{SecureRandom, SystemRandom};

verus! {

/// Length in bytes of a derived master key.
pub const KEY_LEN: usize = 32;

/// Length in bytes of an AEAD nonce.
pub const NONCE_LEN: usize = 12;

/// Length in bytes of the authentication tag appended by sealing.
pub const TAG_LEN: usize = 16;

/// Largest plaintext that ChaCha20-Poly1305 accepts (2^32 blocks of 64 bytes,
/// minus the block reserved for the Poly1305 key).
pub const MAX_SEAL_LEN: u64 = 274_877_906_880;

/// Upper bound on the password and salt lengths accepted by key derivation;
/// far below what SHA-256 can absorb.
pub const MAX_KDF_INPUT_LEN: u64 = 0x1000_0000_0000_0000;

/// The 32-byte PBKDF2-HMAC-SHA256 output for an iteration count, a salt and
/// a password.
pub uninterp spec fn pbkdf2_sha256(iterations: u32, salt: Seq<u8>, password: Seq<u8>) -> Seq<u8>;

/// ChaCha20-Poly1305 sealing with empty associated data: the ciphertext
/// followed by the 16-byte tag.
pub uninterp spec fn aead_seal(key: Seq<u8>, nonce: Seq<u8>, plaintext: Seq<u8>) -> Seq<u8>;

/// ChaCha20-Poly1305 opening with empty associated data: the plaintext when
/// the tag authenticates `sealed`, `None` otherwise.
pub uninterp spec fn aead_open(key: Seq<u8>, nonce: Seq<u8>, sealed: Seq<u8>) -> Option<Seq<u8>>;

/// View of an optional byte vector as an optional sequence.
pub open spec fn opt_bytes(v: Option<Vec<u8>>) -> Option<Seq<u8>> {
    match v {
        Some(b) => Some(b@),
        None => None,
    }
}

/// Relies on `ring::pbkdf2::derive` with `PBKDF2_HMAC_SHA256`: it fills the
/// 32-byte output with a value determined by the iteration count, salt and
/// password. The count must be non-zero to make a `NonZeroU32`, and `derive`
/// panics only on a salt or password too long for SHA-256; `requires` rules
/// both out.
#[verifier::external_body]
pub(crate) fn pbkdf2_derive(iterations: u32, salt: &[u8], password: &[u8]) -> (r: [u8; 32])
    requires
        iterations > 0,
        salt@.len() <= MAX_KDF_INPUT_LEN,
        password@.len() <= MAX_KDF_INPUT_LEN,
    ensures
        r@ == pbkdf2_sha256(iterations, salt@, password@),
{
    let mut out = [0u8; 32];
    ring::pbkdf2::derive(
        ring::pbkdf2::PBKDF2_HMAC_SHA256,
        core::num::NonZeroU32::new(iterations).unwrap(),
        salt,
        password,
        &mut out,
    );
    out
}

/// Relies on `LessSafeKey::seal_in_place_append_tag` for ChaCha20-Poly1305
/// with empty associated data: it encrypts `plaintext` in place and appends
/// the 16-byte tag, failing only on inputs longer than `MAX_SEAL_LEN`. Sealing
/// is deterministic in key, nonce and plaintext, and what it produces opens
/// under the same key and nonce to the same plaintext.
#[verifier::external_body]
pub(crate) fn aead_seal_bytes(key: &[u8; 32], nonce: &[u8; 12], plaintext: Vec<u8>) -> (r: Vec<u8>)
    requires
        plaintext@.len() <= MAX_SEAL_LEN,
    ensures
        r@ == aead_seal(key@, nonce@, plaintext@),
        r@.len() == plaintext@.len() + TAG_LEN,
        aead_open(key@, nonce@, r@) == Some(plaintext@),
{
    let sealing = LessSafeKey::new(UnboundKey::new(&CHACHA20_POLY1305, key).unwrap());
    let mut in_out = plaintext;
    sealing.seal_in_place_append_tag(Nonce::assume_unique_for_key(*nonce), Aad::empty(), &mut in_out)
        .unwrap();
    in_out
}

/// Relies on `LessSafeKey::open_in_place` for ChaCha20-Poly1305 with empty
/// associated data: it yields the plaintext exactly when the trailing tag
/// authenticates the ciphertext, which for this deterministic cipher means
/// that `sealed` is what sealing that plaintext produces.
#[verifier::external_body]
pub(crate) fn aead_open_bytes(key: &[u8; 32], nonce: &[u8; 12], sealed: Vec<u8>) -> (r: Option<Vec<u8>>)
    ensures
        opt_bytes(r) == aead_open(key@, nonce@, sealed@),
        r matches Some(p) ==> sealed@ == aead_seal(key@, nonce@, p@),
{
    let opening = LessSafeKey::new(UnboundKey::new(&CHACHA20_POLY1305, key).unwrap());
    let mut in_out = sealed;
    match opening.open_in_place(Nonce::assume_unique_for_key(*nonce), Aad::empty(), &mut in_out) {
        Ok(plaintext) => Some(plaintext.to_vec()),
        Err(_) => None,
    }
}

/// Relies on `SystemRandom::fill`: it fills the nonce from the operating
/// system's secure generator, or reports that the generator is unavailable.
/// Nothing is known of the bytes drawn.
#[verifier::external_body]
pub(crate) fn random_nonce() -> (r: Option<[u8; 12]>)
{
    let mut nonce = [0u8; 12];
    match SystemRandom::new().fill(&mut nonce) {
        Ok(()) => Some(nonce),
        Err(_) => None,
    }
}

} // verus!
