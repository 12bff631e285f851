//! Encryption-at-rest of API keys: a machine-bound key, the encrypted
//! envelope (random nonce, ciphertext, base64), and the secrets map.

use vstd::prelude::*;

verus! {

use vstd::string::{StrSliceExecFns, StringExecFns};
use aes_gcm::KeyInit;
use aes_gcm::aead::{Aead, Generate};
use base64::Engine;
use sha2::Digest;
use crate::strmap::StringMap;

/// The SHA-256 digest of the UTF-8 encoding of `s`.
pub uninterp spec fn sha256_utf8_of(s: Seq<char>) -> Seq<u8>;

/// The standard padded base64 encoding of `data`.
pub uninterp spec fn b64_encode_of(data: Seq<u8>) -> Seq<char>;

/// What standard padded base64 decoding yields for `s`; malformed input
/// yields nothing.
pub uninterp spec fn b64_decode_of(s: Seq<char>) -> Option<Seq<u8>>;

/// What AES-256-GCM decryption yields for the key, nonce and ciphertext; a
/// forged or corrupted ciphertext yields nothing.
pub uninterp spec fn aes256_gcm_decrypt_of(key: Seq<u8>, nonce: Seq<u8>, ciphertext: Seq<u8>) -> Option<
    Seq<u8>,
>;

/// What UTF-8 decoding yields for `bytes`; invalid sequences yield nothing.
pub uninterp spec fn utf8_string_of(bytes: Seq<u8>) -> Option<Seq<char>>;

/// Relies on sha2::Sha256: the 32-byte digest of the string's UTF-8 bytes, a
/// function of the characters alone.
#[verifier::external_body]
fn sha256_utf8(s: &str) -> (r: Vec<u8>)
    ensures
        r@ == sha256_utf8_of(s@),
        r@.len() == 32,
{
    sha2::Sha256::digest(s.as_bytes()).as_slice().to_vec()
}

/// Relies on base64's standard engine: the padded standard-alphabet
/// encoding, a function of the bytes alone.
#[verifier::external_body]
fn b64_encode(data: &[u8]) -> (r: String)
    ensures
        r@ == b64_encode_of(data@),
{
    base64::engine::general_purpose::STANDARD.encode(data)
}

/// Relies on base64's standard engine: decodes the padded standard
/// alphabet, rejecting malformed input; a function of the characters alone.
#[verifier::external_body]
fn b64_decode(s: &str) -> (r: Option<Vec<u8>>)
    ensures
        r is Some <==> b64_decode_of(s@) is Some,
        (r matches Some(v) ==> b64_decode_of(s@) == Some(v@)),
{
    base64::engine::general_purpose::STANDARD.decode(s).ok()
}

/// Relies on aes_gcm::Aes256Gcm: AES-256-GCM encryption under a fresh
/// random 96-bit nonce. The nonce comes from the system's randomness, so no
/// two calls are related; only the nonce's fixed length is stated.
#[verifier::external_body]
fn aes256_gcm_encrypt(key: &[u8], plaintext: &str) -> (r: Option<(Vec<u8>, Vec<u8>)>)
    requires
        key@.len() == 32,
    ensures
        (r matches Some(p) ==> p.0@.len() == 12),
{
    let key = aes_gcm::Key::<aes_gcm::Aes256Gcm>::try_from(key).ok()?;
    let cipher = aes_gcm::Aes256Gcm::new(&key);
    let nonce = aes_gcm::aead::Nonce::<aes_gcm::Aes256Gcm>::generate();
    let ciphertext = cipher.encrypt(&nonce, plaintext.as_bytes()).ok()?;
    Some((nonce.as_slice().to_vec(), ciphertext))
}

/// Relies on aes_gcm::Aes256Gcm: AES-256-GCM decryption with the given
/// nonce, rejecting forged or corrupted ciphertexts; a function of key,
/// nonce and ciphertext alone.
#[verifier::external_body]
fn aes256_gcm_decrypt(key: &[u8], nonce: &[u8], ciphertext: &[u8]) -> (r: Option<Vec<u8>>)
    requires
        key@.len() == 32,
        nonce@.len() == 12,
    ensures
        r is Some <==> aes256_gcm_decrypt_of(key@, nonce@, ciphertext@) is Some,
        (r matches Some(v) ==> aes256_gcm_decrypt_of(key@, nonce@, ciphertext@) == Some(v@)),
{
    let key = aes_gcm::Key::<aes_gcm::Aes256Gcm>::try_from(key).ok()?;
    let nonce = aes_gcm::aead::Nonce::<aes_gcm::Aes256Gcm>::try_from(nonce).ok()?;
    let cipher = aes_gcm::Aes256Gcm::new(&key);
    cipher.decrypt(&nonce, ciphertext).ok()
}

/// Relies on String::from_utf8: decodes the bytes as UTF-8, rejecting
/// invalid sequences; a function of the bytes alone.
#[verifier::external_body]
fn utf8_to_string(bytes: Vec<u8>) -> (r: Option<String>)
    ensures
        r is Some <==> utf8_string_of(bytes@) is Some,
        (r matches Some(s) ==> utf8_string_of(bytes@) == Some(s@)),
{
    String::from_utf8(bytes).ok()
}

/// The machine-bound encryption key: the digest of a fixed tag and the
/// application data directory, so the same machine derives the same key.
pub fn derive_encryption_key(app_data_dir: &str) -> (r: Vec<u8>)
    ensures
        r@ == sha256_utf8_of("ai-launcher-secret-key:"@ + app_data_dir@),
        r@.len() == 32,
{
    let material = String::from_str("ai-launcher-secret-key:").concat(app_data_dir);
    sha256_utf8(material.as_str())
}

/// Encrypt a secrets document: AES-256-GCM under a fresh nonce, the nonce
/// and ciphertext concatenated and base64-encoded.
pub fn encrypt_data(data: &str, key: &Vec<u8>) -> (r: Result<String, String>)
    requires
        key@.len() == 32,
    ensures
        (r matches Ok(s) ==> exists|nonce: Seq<u8>, ct: Seq<u8>|
            nonce.len() == 12 && s@ == b64_encode_of(#[trigger] (nonce + ct))),
        (r matches Err(m) ==> m@ == "Encryption failed"@),
{
    match aes256_gcm_encrypt(key.as_slice(), data) {
        Option::Some(pair) => {
            let (nonce, mut ciphertext) = pair;
            let ghost nonce_view = nonce@;
            let ghost ct_view = ciphertext@;
            let mut combined = nonce;
            combined.append(&mut ciphertext);
            let encoded = b64_encode(combined.as_slice());
            proof {
                assert(encoded@ == b64_encode_of(nonce_view + ct_view));
            }
            Result::Ok(encoded)
        },
        Option::None => Result::Err(String::from_str("Encryption failed")),
    }
}

/// Decrypt a secrets document: base64-decode, split the 12-byte nonce from
/// the ciphertext, decrypt, and decode the plaintext as UTF-8. Each stage
/// reports its own failure.
pub fn decrypt_data(encrypted_data: &str, key: &Vec<u8>) -> (r: Result<String, String>)
    requires
        key@.len() == 32,
    ensures
        ({
            let dec = b64_decode_of(encrypted_data@);
            &&& (dec is None ==> (r matches Err(m) && m@ == "Base64 decode failed"@))
            &&& (dec matches Some(combined) ==> {
                &&& (combined.len() < 12 ==> (r matches Err(m) && m@ == "Invalid encrypted data"@))
                &&& (combined.len() >= 12 ==> {
                    let pt = aes256_gcm_decrypt_of(
                        key@,
                        combined.subrange(0, 12),
                        combined.subrange(12, combined.len() as int),
                    );
                    &&& (pt is None ==> (r matches Err(m) && m@ == "Decryption failed"@))
                    &&& (pt matches Some(ptb) ==> {
                        let txt = utf8_string_of(ptb);
                        &&& (txt is None ==> (r matches Err(m) && m@ == "UTF-8 decode failed"@))
                        &&& (txt matches Some(t) ==> (r matches Ok(s) && s@ == t))
                    })
                })
            })
        }),
{
    let decoded = match b64_decode(encrypted_data) {
        Option::Some(v) => v,
        Option::None => {
            return Result::Err(String::from_str("Base64 decode failed"));
        },
    };
    if decoded.len() < 12 {
        return Result::Err(String::from_str("Invalid encrypted data"));
    }
    let mut nonce = decoded;
    let ciphertext = nonce.split_off(12);
    let plaintext = match aes256_gcm_decrypt(
        key.as_slice(),
        nonce.as_slice(),
        ciphertext.as_slice(),
    ) {
        Option::Some(v) => v,
        Option::None => {
            return Result::Err(String::from_str("Decryption failed"));
        },
    };
    match utf8_to_string(plaintext) {
        Option::Some(s) => Result::Ok(s),
        Option::None => Result::Err(String::from_str("UTF-8 decode failed")),
    }
}

/// The stored API key for `path`, or the empty string when none is stored.
pub fn get_api_key_from_encrypted(secrets: &StringMap<String>, path: &str) -> (r: String)
    requires
        secrets.wf(),
    ensures
        secrets@.contains_key(path@) ==> r == secrets@[path@],
        !secrets@.contains_key(path@) ==> r@ == Seq::<char>::empty(),
{
    match secrets.get(path) {
        Option::Some(v) => v.clone(),
        Option::None => String::new(),
    }
}

/// Store an API key under `path`; an empty value removes the entry instead.
pub fn store_api_key_in_encrypted(secrets: &mut StringMap<String>, path: &str, value: String)
    requires
        old(secrets).wf(),
    ensures
        final(secrets).wf(),
        value@.len() == 0 ==> final(secrets)@ == old(secrets)@.remove(path@),
        value@.len() > 0 ==> final(secrets)@ == old(secrets)@.insert(path@, value),
{
    if value.as_str().unicode_len() == 0 {
        let _ = secrets.remove(path);
    } else {
        secrets.insert(path.to_owned(), value);
    }
}

} // verus!
