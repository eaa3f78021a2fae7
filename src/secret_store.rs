//! The secret store: authenticated encryption of byte payloads under a
//! password-derived key, and the naming and decoding of stored entries.
//! Reading and writing the entry files is left to the caller, which hands
//! this module the bytes it read and writes the bytes it gets back.
use vstd::prelude::*;
use vstd::string::*;
use vstd::utf8::*;

use crate::crypto::{
    aead_open, aead_open_bytes, aead_seal, aead_seal_bytes, pbkdf2_derive,
    pbkdf2_sha256, random_nonce, MAX_KDF_INPUT_LEN, MAX_SEAL_LEN, NONCE_LEN, TAG_LEN,
};
use crate::text::{lemma_text_round_trip, string_from_utf8, text_bytes, utf8_text};

verus! {

/// PBKDF2 iteration count used to derive the master key.
pub const KDF_ITERATIONS: u32 = 100;

/// Why a stored entry could not be produced or read back.
#[derive(Clone, Copy, Debug, PartialEq, Eq, Structural)]
pub enum CacheError {
    /// The entry does not exist.
    NotFound,
    /// The tag did not authenticate the blob: wrong key, or tampered or
    /// truncated content.
    CryptoFailure,
    /// The entry's content is not valid UTF-8 text.
    NotText,
    /// The system random generator could not supply a nonce.
    RandomnessUnavailable,
}

/// The master key for a password and salt.
pub open spec fn derived_key(password: Seq<char>, salt: Seq<char>) -> Seq<u8> {
    pbkdf2_sha256(KDF_ITERATIONS, encode_utf8(salt), encode_utf8(password))
}

/// The trailing nonce of an encrypted blob.
pub open spec fn blob_nonce(blob: Seq<u8>) -> Seq<u8> {
    blob.subrange(blob.len() - NONCE_LEN, blob.len() as int)
}

/// Everything of an encrypted blob before its nonce: ciphertext and tag.
pub open spec fn blob_body(blob: Seq<u8>) -> Seq<u8> {
    blob.subrange(0, blob.len() - NONCE_LEN)
}

/// The blob stored for `plaintext` sealed under `key` with `nonce`.
pub open spec fn sealed_blob(key: Seq<u8>, nonce: Seq<u8>, plaintext: Seq<u8>) -> Seq<u8> {
    aead_seal(key, nonce, plaintext) + nonce
}

/// What decrypting `blob` under `key` yields: the plaintext when the blob
/// carries a nonce and its tag authenticates it, `None` otherwise.
pub open spec fn open_blob(key: Seq<u8>, blob: Seq<u8>) -> Option<Seq<u8>> {
    if blob.len() < NONCE_LEN {
        None
    } else {
        aead_open(key, blob_nonce(blob), blob_body(blob))
    }
}

/// `blob` is an encryption of `plaintext` under `key`: the sealed plaintext
/// followed by the nonce it was sealed with, which opens back to the
/// plaintext.
pub open spec fn encrypts(key: Seq<u8>, plaintext: Seq<u8>, blob: Seq<u8>) -> bool {
    &&& blob.len() == plaintext.len() + TAG_LEN + NONCE_LEN
    &&& blob == sealed_blob(key, blob_nonce(blob), plaintext)
    &&& aead_open(key, blob_nonce(blob), blob_body(blob)) == Some(plaintext)
}

/// The text held in an encrypted blob, when it decrypts to valid UTF-8.
pub open spec fn open_text(key: Seq<u8>, blob: Seq<u8>) -> Option<Seq<char>> {
    match open_blob(key, blob) {
        Some(p) => utf8_text(p),
        None => None,
    }
}

/// The file name under which the entry `key` is stored: a dot followed by
/// the key.
pub open spec fn entry_file(key: Seq<char>) -> Seq<char> {
    seq!['.'] + key
}

/// A store of named secret entries under a root directory, encrypting with a
/// fixed master key.
#[derive(Clone)]
pub struct FileCache {
    key: [u8; 32],
    path: String,
}

impl FileCache {
    /// The master key.
    pub closed spec fn master_key(&self) -> Seq<u8> {
        self.key@
    }

    /// The root directory of the entries.
    pub closed spec fn root(&self) -> Seq<char> {
        self.path@
    }

    pub fn new(key: [u8; 32], path: String) -> (r: Self)
        ensures
            r.master_key() == key@,
            r.root() == path@,
    {
        FileCache { key, path }
    }

    /// The root directory of the entries.
    pub fn path(&self) -> (r: &String)
        ensures
            r@ == self.root(),
    {
        &self.path
    }

    /// Derives the 32-byte master key from a password and a salt.
    pub fn make_key(password: &str, salt: &str) -> (r: [u8; 32])
        requires
            encode_utf8(password@).len() <= MAX_KDF_INPUT_LEN,
            encode_utf8(salt@).len() <= MAX_KDF_INPUT_LEN,
        ensures
            r@ == derived_key(password@, salt@),
            r@.len() == 32,
    {
        pbkdf2_derive(KDF_ITERATIONS, salt.as_bytes(), password.as_bytes())
    }

    /// The name of the file that holds the entry `key`.
    pub fn entry_file_name(key: &str) -> (r: String)
        ensures
            r@ == entry_file(key@),
    {
        let mut name = String::from_str(".");
        name.append(key);
        proof {
            reveal_strlit(".");
        }
        name
    }

    /// Seals `content` with the given nonce and appends the nonce.
    pub fn seal_with_nonce(&self, nonce: [u8; 12], content: Vec<u8>) -> (r: Vec<u8>)
        requires
            content@.len() <= MAX_SEAL_LEN,
        ensures
            r@ == sealed_blob(self.master_key(), nonce@, content@),
            blob_nonce(r@) == nonce@,
            encrypts(self.master_key(), content@, r@),
    {
        let ghost plain = content@;
        let mut out = aead_seal_bytes(&self.key, &nonce, content);
        let ghost sealed = out@;
        let mut i: usize = 0;
        while i < NONCE_LEN
            invariant
                0 <= i <= NONCE_LEN,
                nonce@.len() == NONCE_LEN,
                out@ == sealed + nonce@.subrange(0, i as int),
            decreases NONCE_LEN - i,
        {
            out.push(nonce[i]);
            i = i + 1;
            assert(out@ =~= sealed + nonce@.subrange(0, i as int));
        }
        assert(out@ =~= sealed + nonce@);
        assert(blob_nonce(out@) =~= nonce@);
        assert(blob_body(out@) =~= sealed);
        out
    }

    /// Encrypts `content` under a fresh random nonce: the result is the
    /// ciphertext, its tag and the nonce, in that order.
    pub fn encrypt(&self, content: Vec<u8>) -> (r: Result<Vec<u8>, CacheError>)
        requires
            content@.len() <= MAX_SEAL_LEN,
        ensures
            match r {
                Ok(blob) => encrypts(self.master_key(), content@, blob@),
                Err(e) => e == CacheError::RandomnessUnavailable,
            },
    {
        match random_nonce() {
            Some(nonce) => Ok(self.seal_with_nonce(nonce, content)),
            None => Err(CacheError::RandomnessUnavailable),
        }
    }

    /// Splits an encrypted blob into its trailing nonce and what precedes it.
    pub fn extract_nonce(encrypted_content: Vec<u8>) -> (r: ([u8; 12], Vec<u8>))
        requires
            encrypted_content@.len() >= NONCE_LEN,
        ensures
            r.0@ == blob_nonce(encrypted_content@),
            r.1@ == blob_body(encrypted_content@),
    {
        let len = encrypted_content.len();
        let start = len - NONCE_LEN;
        let mut nonce = [0u8; 12];
        let mut i: usize = 0;
        while i < NONCE_LEN
            invariant
                len == encrypted_content@.len(),
                start == len - NONCE_LEN,
                0 <= i <= NONCE_LEN,
                forall|j: int| 0 <= j < i ==> nonce@[j] == encrypted_content@[start + j],
            decreases NONCE_LEN - i,
        {
            nonce[i] = encrypted_content[start + i];
            i = i + 1;
        }
        let mut content: Vec<u8> = Vec::new();
        let mut k: usize = 0;
        while k < start
            invariant
                len == encrypted_content@.len(),
                start == len - NONCE_LEN,
                k <= start,
                content@ == encrypted_content@.subrange(0, k as int),
            decreases start - k,
        {
            content.push(encrypted_content[k]);
            k = k + 1;
            assert(content@ =~= encrypted_content@.subrange(0, k as int));
        }
        assert(nonce@ =~= blob_nonce(encrypted_content@));
        (nonce, content)
    }

    /// Opens `content` (ciphertext and tag) sealed with `nonce`. Fails
    /// closed: plaintext comes back only when the tag authenticates it.
    pub fn decrypt(&self, nonce: [u8; 12], content: Vec<u8>) -> (r: Result<Vec<u8>, CacheError>)
        ensures
            match r {
                Ok(p) => aead_open(self.master_key(), nonce@, content@) == Some(p@)
                    && content@ == aead_seal(self.master_key(), nonce@, p@),
                Err(e) => e == CacheError::CryptoFailure
                    && aead_open(self.master_key(), nonce@, content@) is None,
            },
    {
        match aead_open_bytes(&self.key, &nonce, content) {
            Some(p) => Ok(p),
            None => Err(CacheError::CryptoFailure),
        }
    }

    /// Decrypts a whole stored blob: splits off the nonce and opens the
    /// rest. A blob too short to hold a nonce is a crypto failure.
    pub fn decrypt_blob(&self, blob: Vec<u8>) -> (r: Result<Vec<u8>, CacheError>)
        ensures
            match r {
                Ok(p) => open_blob(self.master_key(), blob@) == Some(p@)
                    && blob@ == sealed_blob(self.master_key(), blob_nonce(blob@), p@),
                Err(e) => e == CacheError::CryptoFailure
                    && open_blob(self.master_key(), blob@) is None,
            },
    {
        if blob.len() < NONCE_LEN {
            return Err(CacheError::CryptoFailure);
        }
        let ghost whole = blob@;
        let (nonce, content) = Self::extract_nonce(blob);
        let r = self.decrypt(nonce, content);
        assert(whole =~= blob_body(whole) + blob_nonce(whole));
        r
    }

    /// Encrypts the value of a secret entry; the result is what its file
    /// holds.
    pub fn set_encrypted(&self, value: Vec<u8>) -> (r: Result<Vec<u8>, CacheError>)
        requires
            value@.len() <= MAX_SEAL_LEN,
        ensures
            match r {
                Ok(blob) => encrypts(self.master_key(), value@, blob@),
                Err(e) => e == CacheError::RandomnessUnavailable,
            },
    {
        self.encrypt(value)
    }

    /// Reads back the text of a secret entry from the bytes its file holds,
    /// telling a decryption failure apart from content that is not text.
    pub fn get_encrypted(&self, stored: Vec<u8>) -> (r: Result<String, CacheError>)
        ensures
            match r {
                Ok(s) => open_text(self.master_key(), stored@) == Some(s@),
                Err(CacheError::CryptoFailure) => open_blob(self.master_key(), stored@) is None,
                Err(CacheError::NotText) => open_blob(self.master_key(), stored@) is Some
                    && open_text(self.master_key(), stored@) is None,
                Err(_) => false,
            },
    {
        match self.decrypt_blob(stored) {
            Ok(p) => match string_from_utf8(p) {
                Some(s) => Ok(s),
                None => Err(CacheError::NotText),
            },
            Err(e) => Err(e),
        }
    }

    /// Reads back the text of a plain entry from the bytes its file holds.
    pub fn get(stored: Vec<u8>) -> (r: Result<String, CacheError>)
        ensures
            match r {
                Ok(s) => utf8_text(stored@) == Some(s@),
                Err(e) => e == CacheError::NotText && utf8_text(stored@) is None,
            },
    {
        match string_from_utf8(stored) {
            Some(s) => Ok(s),
            None => Err(CacheError::NotText),
        }
    }

    /// The bytes a plain entry's file holds for the text `value`.
    pub fn set(value: &str) -> (r: Vec<u8>)
        ensures
            r@ == encode_utf8(value@),
    {
        text_bytes(value)
    }
}

/// Decryption inverts encryption: every blob that `encrypt` produces for a
/// plaintext decrypts, under the same key, to exactly that plaintext.
pub proof fn lemma_decrypt_inverts_encrypt(key: Seq<u8>, plaintext: Seq<u8>, blob: Seq<u8>)
    requires
        encrypts(key, plaintext, blob),
    ensures
        open_blob(key, blob) == Some(plaintext),
{
}

/// A blob altered anywhere before its trailing nonce never decrypts back to
/// the plaintext it held: whatever plaintext `out` decrypting the altered
/// blob yields, it differs from `plaintext`.
pub proof fn lemma_altered_blob_loses_plaintext(
    key: Seq<u8>,
    plaintext: Seq<u8>,
    blob: Seq<u8>,
    altered: Seq<u8>,
    out: Seq<u8>,
)
    requires
        encrypts(key, plaintext, blob),
        altered.len() == blob.len(),
        blob_nonce(altered) == blob_nonce(blob),
        altered != blob,
        altered == sealed_blob(key, blob_nonce(altered), out),
    ensures
        out != plaintext,
{
}

/// Key derivation is deterministic: two keys derived from the same password
/// and salt are the same 32 bytes.
pub proof fn lemma_key_determinism(password: Seq<char>, salt: Seq<char>, k1: Seq<u8>, k2: Seq<u8>)
    requires
        k1 == derived_key(password, salt),
        k2 == derived_key(password, salt),
    ensures
        k1 == k2,
{
}

/// Writing a secret entry and reading it back gives the value written: the
/// blob that `set_encrypted` makes from a text's bytes decrypts to that text.
pub proof fn lemma_encrypted_entry_round_trip(key: Seq<u8>, value: Seq<char>, blob: Seq<u8>)
    requires
        encrypts(key, encode_utf8(value), blob),
    ensures
        open_blob(key, blob) == Some(encode_utf8(value)),
        open_text(key, blob) == Some(value),
{
    lemma_text_round_trip(value);
}

/// Writing a plain entry and reading it back gives the value written: the
/// bytes that `set` makes of a text decode to that text.
pub proof fn lemma_plain_entry_round_trip(value: Seq<char>)
    ensures
        utf8_text(encode_utf8(value)) == Some(value),
{
    lemma_text_round_trip(value);
}

} // verus!
