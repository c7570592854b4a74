//! Encryption of API keys with AES-256-GCM, under a key given in hexadecimal.

use aes_gcm::aead::{Aead, KeyInit};
use aes_gcm::AeadCore;
use vstd::prelude::*;
use vstd::string::StringSliceAdditionalSpecFns;
use vstd::utf8::{decode_utf8, encode_utf8, valid_utf8};

verus! {

/// Errors of encryption and decryption.
#[derive(Debug, Clone, Copy, PartialEq, Eq, Structural)]
pub enum ChatRsError {
    EncryptionError,
    DecryptionError,
    MissingApiKey,
}

/// The value of an ASCII hexadecimal digit byte (either case), if it is one.
pub open spec fn hex_digit_value(b: u8) -> Option<int> {
    if 0x30 <= b <= 0x39 {
        Some(b - 0x30)
    } else if 0x41 <= b <= 0x46 {
        Some(b - 0x41 + 10)
    } else if 0x61 <= b <= 0x66 {
        Some(b - 0x61 + 10)
    } else {
        None
    }
}

/// The bytes that hexadecimal text (as bytes) stands for: two digits per byte, high digit first;
/// `None` for an odd length or a byte that is not a hexadecimal digit.
pub open spec fn hex_decoded(text: Seq<u8>) -> Option<Seq<u8>> {
    if text.len() % 2 == 0 && forall|i: int| 0 <= i < text.len() ==> (#[trigger] hex_digit_value(text[i])) is Some {
        Some(
            Seq::new(
                text.len() / 2,
                |i: int| (hex_digit_value(text[2 * i]).unwrap() * 16 + hex_digit_value(text[2 * i + 1]).unwrap()) as u8,
            ),
        )
    } else {
        None
    }
}

/// Decodes hexadecimal text with `hex::decode`, which fails on an odd length or on a byte that is
/// not a hexadecimal digit (either case), and otherwise gives one byte per two digits.
#[verifier::external_body]
fn hex_decode(text: &str) -> (r: Option<Vec<u8>>)
    ensures
        match r {
            Some(b) => hex_decoded(text.spec_bytes()) == Some(b@),
            None => hex_decoded(text.spec_bytes()) is None,
        },
{
    hex::decode(text).ok()
}

/// Whether `aes_gcm::Aes256Gcm::new_from_slice` accepts a key: its source accepts exactly the
/// keys of 32 bytes.
#[verifier::external_body]
fn cipher_accepts_key(key: &[u8]) -> (r: bool)
    ensures
        r == (key@.len() == 32),
{
    aes_gcm::Aes256Gcm::new_from_slice(key).is_ok()
}

/// The ciphertext (with its 16-byte tag) that AES-256-GCM makes of a plaintext under a key and a
/// nonce, without associated data.
pub uninterp spec fn aes_gcm_sealed(key: Seq<u8>, nonce: Seq<u8>, plaintext: Seq<u8>) -> Seq<u8>;

/// What AES-256-GCM opens a ciphertext to under a key and a nonce: the plaintext, or `None` when
/// the tag does not authenticate it.
pub uninterp spec fn aes_gcm_opened(key: Seq<u8>, nonce: Seq<u8>, ciphertext: Seq<u8>) -> Option<Seq<u8>>;

/// A random 12-byte nonce from `Aes256Gcm::generate_nonce` with the operating system's random
/// source. It is random; only its length is stated.
#[verifier::external_body]
fn random_nonce() -> (r: Vec<u8>)
    ensures
        r@.len() == 12,
{
    aes_gcm::Aes256Gcm::generate_nonce(&mut aes_gcm::aead::OsRng).to_vec()
}

/// Encrypts with `Aes256Gcm::encrypt`. The source refuses only plaintexts longer than 2^36 bytes.
/// The ciphertext is named; the contract also states the AEAD property that the crate documents:
/// decrypting it under the same key and nonce gives the plaintext back.
#[verifier::external_body]
fn seal(key: &[u8], nonce: &[u8], plaintext: &[u8]) -> (r: Option<Vec<u8>>)
    requires
        key@.len() == 32,
        nonce@.len() == 12,
    ensures
        plaintext@.len() <= 0x10_0000_0000 ==> r is Some,
        r matches Some(c) ==> c@ == aes_gcm_sealed(key@, nonce@, plaintext@) && aes_gcm_opened(key@, nonce@, c@) == Some(
            plaintext@,
        ),
{
    let cipher = aes_gcm::Aes256Gcm::new_from_slice(key).ok()?;
    cipher.encrypt(aes_gcm::Nonce::from_slice(nonce), plaintext).ok()
}

/// Decrypts with `Aes256Gcm::decrypt`. The result is named.
#[verifier::external_body]
fn open(key: &[u8], nonce: &[u8], ciphertext: &[u8]) -> (r: Option<Vec<u8>>)
    requires
        key@.len() == 32,
        nonce@.len() == 12,
    ensures
        match r {
            Some(p) => aes_gcm_opened(key@, nonce@, ciphertext@) == Some(p@),
            None => aes_gcm_opened(key@, nonce@, ciphertext@) is None,
        },
{
    let cipher = aes_gcm::Aes256Gcm::new_from_slice(key).ok()?;
    cipher.decrypt(aes_gcm::Nonce::from_slice(nonce), ciphertext).ok()
}

/// Reads bytes as UTF-8 with `String::from_utf8`, which is documented to succeed exactly on valid
/// UTF-8.
#[verifier::external_body]
fn string_from_utf8(bytes: Vec<u8>) -> (r: Option<String>)
    ensures
        match r {
            Some(s) => valid_utf8(bytes@) && s@ == decode_utf8(bytes@),
            None => !valid_utf8(bytes@),
        },
{
    String::from_utf8(bytes).ok()
}

/// Encryption service for encrypting and decrypting API keys.
pub struct Encryptor {
    key: Vec<u8>,
}

impl Encryptor {
    #[verifier::type_invariant]
    spec fn key_is_valid(self) -> bool {
        self.key@.len() == 32
    }

    /// The 32-byte AES key.
    pub closed spec fn key_bytes(&self) -> Seq<u8> {
        self.key@
    }

    /// An encryptor for a key given as 64 hexadecimal digits; other keys are an error.
    pub fn new(key: &str) -> (r: Result<Self, ChatRsError>)
        ensures
            match hex_decoded(key.spec_bytes()) {
                Some(b) => if b.len() == 32 {
                    r matches Ok(e) && e.key_bytes() == b
                } else {
                    r == Err::<Encryptor, ChatRsError>(ChatRsError::EncryptionError)
                },
                None => r == Err::<Encryptor, ChatRsError>(ChatRsError::EncryptionError),
            },
    {
        let key_bytes = match hex_decode(key) {
            Some(b) => b,
            None => return Err(ChatRsError::EncryptionError),
        };
        if !cipher_accepts_key(key_bytes.as_slice()) {
            return Err(ChatRsError::EncryptionError);
        }
        Ok(Encryptor { key: key_bytes })
    }

    /// Encrypts bytes under a fresh random nonce; gives the ciphertext and the nonce.
    pub fn encrypt_bytes(&self, bytes: &[u8]) -> (r: Result<(Vec<u8>, Vec<u8>), ChatRsError>)
        ensures
            bytes@.len() <= 0x10_0000_0000 ==> r is Ok,
            match r {
                Ok((c, n)) => n@.len() == 12 && c@ == aes_gcm_sealed(self.key_bytes(), n@, bytes@) && aes_gcm_opened(
                    self.key_bytes(),
                    n@,
                    c@,
                ) == Some(bytes@),
                Err(e) => e == ChatRsError::EncryptionError,
            },
    {
        proof {
            use_type_invariant(self);
        }
        let nonce = random_nonce();
        match seal(self.key.as_slice(), nonce.as_slice(), bytes) {
            Some(c) => Ok((c, nonce)),
            None => Err(ChatRsError::EncryptionError),
        }
    }

    /// Encrypts a text (its UTF-8 bytes) under a fresh random nonce.
    pub fn encrypt_string(&self, plaintext: &str) -> (r: Result<(Vec<u8>, Vec<u8>), ChatRsError>)
        ensures
            plaintext.spec_bytes().len() <= 0x10_0000_0000 ==> r is Ok,
            match r {
                Ok((c, n)) => n@.len() == 12 && c@ == aes_gcm_sealed(self.key_bytes(), n@, plaintext.spec_bytes())
                    && aes_gcm_opened(self.key_bytes(), n@, c@) == Some(plaintext.spec_bytes()),
                Err(e) => e == ChatRsError::EncryptionError,
            },
    {
        self.encrypt_bytes(plaintext.as_bytes())
    }

    /// Decrypts bytes under a nonce of 12 bytes.
    pub fn decrypt_bytes(&self, ciphertext: &[u8], nonce: &[u8]) -> (r: Result<Vec<u8>, ChatRsError>)
        requires
            nonce@.len() == 12,
        ensures
            match aes_gcm_opened(self.key_bytes(), nonce@, ciphertext@) {
                Some(p) => r matches Ok(b) && b@ == p,
                None => r == Err::<Vec<u8>, ChatRsError>(ChatRsError::DecryptionError),
            },
    {
        proof {
            use_type_invariant(self);
        }
        match open(self.key.as_slice(), nonce, ciphertext) {
            Some(p) => Ok(p),
            None => Err(ChatRsError::DecryptionError),
        }
    }

    /// Decrypts a text under a nonce of 12 bytes; the plaintext must be UTF-8.
    pub fn decrypt_string(&self, ciphertext: &[u8], nonce: &[u8]) -> (r: Result<String, ChatRsError>)
        requires
            nonce@.len() == 12,
        ensures
            match aes_gcm_opened(self.key_bytes(), nonce@, ciphertext@) {
                Some(p) => if valid_utf8(p) {
                    r matches Ok(s) && s@ == decode_utf8(p)
                } else {
                    r == Err::<String, ChatRsError>(ChatRsError::DecryptionError)
                },
                None => r == Err::<String, ChatRsError>(ChatRsError::DecryptionError),
            },
    {
        let bytes = self.decrypt_bytes(ciphertext, nonce)?;
        match string_from_utf8(bytes) {
            Some(s) => Ok(s),
            None => Err(ChatRsError::DecryptionError),
        }
    }
}

/// Decrypting what `encrypt_string` gave, with the same key, gives the text back: for a ciphertext
/// and nonce such as `encrypt_string` returns, `decrypt_string`'s contract yields the plaintext back.
pub proof fn law_decrypt_string_inverts_encrypt_string(key: Seq<u8>, plaintext: Seq<char>, ciphertext: Seq<u8>, nonce: Seq<u8>)
    requires
        nonce.len() == 12,
        aes_gcm_opened(key, nonce, ciphertext) == Some(encode_utf8(plaintext)),
    ensures
        aes_gcm_opened(key, nonce, ciphertext) matches Some(p) && valid_utf8(p) && decode_utf8(p) == plaintext,
{
    vstd::utf8::encode_utf8_valid_utf8(plaintext);
    vstd::utf8::encode_utf8_decode_utf8(plaintext);
}

} // verus!
