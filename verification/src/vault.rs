//! Secret vault: authenticated symmetric encryption of secret values.  The
//! blob layout (12-byte nonce, then the sealed bytes, base64-encoded) and
//! its parsing are verified; the AEAD, base64 and randomness primitives are
//! relied on through contracts.
use vstd::prelude::*;
use vstd::string::StringSliceAdditionalSpecFns;
use vstd::slice::{slice_to_vec, slice_subrange};
use vstd::utf8::{valid_utf8, decode_utf8, encode_utf8_valid_utf8, encode_utf8_decode_utf8};
use aes_gcm::KeyInit;
use aes_gcm::aead::Aead;
use base64::Engine;
use rand::RngCore;

verus! {

/// What AES-256-GCM sealing returns for a given key, nonce and plaintext.
pub uninterp spec fn sealed_of(key: Seq<u8>, nonce: Seq<u8>, pt: Seq<u8>) -> Seq<u8>;

/// What AES-256-GCM opening returns for a given key, nonce and ciphertext;
/// `None` when the authentication tag does not verify.
pub uninterp spec fn opened_of(key: Seq<u8>, nonce: Seq<u8>, ct: Seq<u8>) -> Option<Seq<u8>>;

/// What standard base64 encoding returns for given bytes.
pub uninterp spec fn b64_of(b: Seq<u8>) -> Seq<char>;

/// What standard base64 decoding returns for a given string; `None` for
/// text that is not valid base64.
pub uninterp spec fn b64_decoded(s: Seq<char>) -> Option<Seq<u8>>;

/// Relies on rand's `OsRng::fill_bytes`: fills the buffer with random bytes,
/// so only the length is promised.
#[verifier::external_body]
fn random_bytes(n: usize) -> (r: Vec<u8>)
    ensures
        r@.len() == n,
{
    let mut buf = vec![0u8; n];
    rand::rngs::OsRng.fill_bytes(&mut buf);
    buf
}

/// Relies on aes_gcm's `Aes256Gcm` with `Aead::encrypt`: sealing is a
/// function of key, nonce and plaintext alone, it fails only when the
/// plaintext exceeds the algorithm's 2^36-byte bound, and opening the sealed
/// bytes with the same key and nonce yields the plaintext again.
#[verifier::external_body]
fn aead_seal(key: &Vec<u8>, nonce: &Vec<u8>, pt: &[u8]) -> (r: Result<Vec<u8>, ()>)
    requires
        key@.len() == 32,
        nonce@.len() == 12,
    ensures
        r matches Ok(ct) ==> ct@ == sealed_of(key@, nonce@, pt@) && opened_of(key@, nonce@, ct@)
            == Some(pt@),
        pt@.len() <= 0x10_0000_0000 ==> r is Ok,
{
    let cipher = match aes_gcm::Aes256Gcm::new_from_slice(key) {
        Ok(c) => c,
        Err(_) => return Err(()),
    };
    match cipher.encrypt(aes_gcm::Nonce::from_slice(nonce), pt) {
        Ok(ct) => Ok(ct),
        Err(_) => Err(()),
    }
}

/// Relies on aes_gcm's `Aes256Gcm` with `Aead::decrypt`: opening is a
/// function of key, nonce and ciphertext alone, and fails exactly when the
/// authentication does.
#[verifier::external_body]
fn aead_open(key: &Vec<u8>, nonce: &[u8], ct: &[u8]) -> (r: Result<Vec<u8>, ()>)
    requires
        key@.len() == 32,
        nonce@.len() == 12,
    ensures
        (r is Ok) == (opened_of(key@, nonce@, ct@) is Some),
        r matches Ok(pt) ==> Some(pt@) == opened_of(key@, nonce@, ct@),
{
    let cipher = match aes_gcm::Aes256Gcm::new_from_slice(key) {
        Ok(c) => c,
        Err(_) => return Err(()),
    };
    match cipher.decrypt(aes_gcm::Nonce::from_slice(nonce), ct) {
        Ok(pt) => Ok(pt),
        Err(_) => Err(()),
    }
}

/// Relies on base64's `STANDARD` engine `encode`: encoding is a function of
/// the bytes alone, and decoding what was encoded gives the bytes back.
#[verifier::external_body]
fn b64_encode(data: &Vec<u8>) -> (r: String)
    ensures
        r@ == b64_of(data@),
        b64_decoded(r@) == Some(data@),
{
    base64::engine::general_purpose::STANDARD.encode(data)
}

/// Relies on base64's `STANDARD` engine `decode`: decoding is a function of
/// the text alone and fails exactly on text that is not valid base64.
#[verifier::external_body]
fn b64_decode(s: &str) -> (r: Option<Vec<u8>>)
    ensures
        (r is Some) == (b64_decoded(s@) is Some),
        r matches Some(v) ==> Some(v@) == b64_decoded(s@),
{
    match base64::engine::general_purpose::STANDARD.decode(s) {
        Ok(v) => Some(v),
        Err(_) => None,
    }
}

/// Relies on `String::from_utf8`: succeeds exactly on valid UTF-8 and
/// returns the decoded characters.
#[verifier::external_body]
fn bytes_to_string(v: Vec<u8>) -> (r: Option<String>)
    ensures
        (r is Some) == valid_utf8(v@),
        r matches Some(s) ==> s@ == decode_utf8(v@),
{
    match String::from_utf8(v) {
        Ok(s) => Some(s),
        Err(_) => None,
    }
}

/// What decrypting a blob under `key` yields: base64-decode, split off the
/// 12-byte nonce, open, and decode the plaintext as UTF-8; `None` at any
/// failing step.
pub open spec fn decrypt_spec(key: Seq<u8>, blob: Seq<char>) -> Option<Seq<char>> {
    match b64_decoded(blob) {
        None => None,
        Some(data) => if data.len() < 12 {
            None
        } else {
            match opened_of(key, data.subrange(0, 12), data.subrange(12, data.len() as int)) {
                None => None,
                Some(pt) => if valid_utf8(pt) {
                    Some(decode_utf8(pt))
                } else {
                    None
                },
            }
        },
    }
}

/// The secret vault: holds the symmetric key and seals or opens secret
/// values as base64 blobs of nonce-then-ciphertext.
pub struct SecretManager {
    key: Vec<u8>,
}

impl SecretManager {
    /// The vault holds a 256-bit key.
    pub closed spec fn wf(&self) -> bool {
        self.key@.len() == 32
    }

    /// The key bytes the vault was built over.
    pub closed spec fn key_view(&self) -> Seq<u8> {
        self.key@
    }

    pub fn new(key: &[u8; 32]) -> (r: SecretManager)
        ensures
            r.wf(),
            r.key_view() == key@,
    {
        SecretManager { key: slice_to_vec(key.as_slice()) }
    }

    /// Encrypts `plaintext` into a self-contained blob: a fresh random
    /// 12-byte nonce, then the sealed bytes, base64-encoded.  Decrypting the
    /// blob under the same key gives `plaintext` back; encryption is owed
    /// success for any plaintext within the AEAD's 2^36-byte bound.
    pub fn encrypt(&self, plaintext: &str) -> (r: Result<String, String>)
        requires
            self.wf(),
        ensures
            r matches Ok(blob) ==> decrypt_spec(self.key_view(), blob@) == Some(plaintext@),
            plaintext.spec_bytes().len() <= 0x10_0000_0000 ==> r is Ok,
    {
        let nonce = random_bytes(12);
        match aead_seal(&self.key, &nonce, plaintext.as_bytes()) {
            Err(_) => Err("Encryption failed".to_owned()),
            Ok(mut ct) => {
                proof {
                    encode_utf8_valid_utf8(plaintext@);
                    encode_utf8_decode_utf8(plaintext@);
                }
                let ghost sealed = ct@;
                let mut data = nonce;
                data.append(&mut ct);
                let blob = b64_encode(&data);
                proof {
                    assert(data@.len() >= 12);
                    assert(data@.subrange(0, 12) =~= nonce@);
                    assert(data@.subrange(12, data@.len() as int) =~= sealed);
                }
                Ok(blob)
            },
        }
    }

    /// Decrypts a blob produced by [`Self::encrypt`].  Returns the plaintext
    /// exactly when the blob is valid base64, long enough to carry the
    /// nonce, authentically sealed under this key, and UTF-8; any malformed
    /// or tampered blob gives an error, never garbage text.
    pub fn decrypt(&self, encrypted: &str) -> (r: Result<String, String>)
        requires
            self.wf(),
        ensures
            (r is Ok) == (decrypt_spec(self.key_view(), encrypted@) is Some),
            r matches Ok(s) ==> Some(s@) == decrypt_spec(self.key_view(), encrypted@),
    {
        let data = match b64_decode(encrypted) {
            None => {
                return Err("Invalid encrypted data".to_owned());
            },
            Some(d) => d,
        };
        if data.len() < 12 {
            return Err("Invalid encrypted data".to_owned());
        }
        let nonce = slice_subrange(data.as_slice(), 0, 12);
        let ct = slice_subrange(data.as_slice(), 12, data.len());
        match aead_open(&self.key, nonce, ct) {
            Err(_) => Err("Decryption failed".to_owned()),
            Ok(pt) => match bytes_to_string(pt) {
                None => Err("Decryption failed".to_owned()),
                Some(s) => Ok(s),
            },
        }
    }
}

} // verus!
