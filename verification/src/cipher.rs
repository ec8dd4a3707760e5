//! The cipher suite: encrypt, decrypt and key-length rules per method.
//!
//! Four symmetric schemes are offered. The block ciphers run in an ECB-style
//! mode with PKCS#7 padding and no initialization vector; the stream cipher
//! uses a fixed all-zero 12-byte nonce. Both choices leak structure and are
//! kept only as the documented current contract of the store.

use vstd::prelude::*;

use aes::Aes256;
use block_modes::BlockMode;
use block_modes::Ecb;
use block_padding::Pkcs7;
use blowfish::Blowfish;
use chacha20::cipher::KeyIvInit;
use chacha20::cipher::StreamCipher;
use chacha20::ChaCha20;
use des::TdesEde3;

use crate::error::SecretError;
use crate::models::EncryptionMethod;

verus! {

/// The largest data length the suite accepts, comfortably under the
/// stream cipher's keystream limit.
pub const MAX_DATA_LEN: usize = 0x7fff_ffff;

/// The exact key length, in bytes, that a method requires.
pub open spec fn required_key_len(method: EncryptionMethod) -> nat {
    match method {
        EncryptionMethod::AES256 => 32,
        EncryptionMethod::Chacha20 => 32,
        EncryptionMethod::Blowfish => 32,
        EncryptionMethod::DESTriphleDES => 24,
    }
}

/// The exact key length a method requires, as an executable value.
pub fn key_len(method: &EncryptionMethod) -> (n: usize)
    ensures
        n == required_key_len(*method),
{
    match method {
        EncryptionMethod::AES256 => 32,
        EncryptionMethod::Chacha20 => 32,
        EncryptionMethod::Blowfish => 32,
        EncryptionMethod::DESTriphleDES => 24,
    }
}

/// Whether a method insists on a key of exactly the required length.
/// The other methods normalize the supplied key instead.
pub open spec fn strict_key(method: EncryptionMethod) -> bool {
    match method {
        EncryptionMethod::AES256 => true,
        EncryptionMethod::Chacha20 => true,
        EncryptionMethod::Blowfish => false,
        EncryptionMethod::DESTriphleDES => false,
    }
}

/// Whether the suite accepts this key for this method.
pub open spec fn key_acceptable(method: EncryptionMethod, key: Seq<u8>) -> bool {
    strict_key(method) ==> key.len() == required_key_len(method)
}

/// Decides whether the suite accepts this key for this method.
pub fn key_ok(method: &EncryptionMethod, key: &[u8]) -> (b: bool)
    ensures
        b == key_acceptable(*method, key@),
{
    match method {
        EncryptionMethod::AES256 => key.len() == 32,
        EncryptionMethod::Chacha20 => key.len() == 32,
        EncryptionMethod::Blowfish => true,
        EncryptionMethod::DESTriphleDES => true,
    }
}

/// The supplied key zero-padded or truncated to length `n`.
pub open spec fn normalized_key(key: Seq<u8>, n: nat) -> Seq<u8> {
    Seq::new(n, |i: int| if i < key.len() { key[i] } else { 0u8 })
}

/// Zero-pads or truncates a key to length `n`, the explicit normalization
/// the non-strict methods define.
pub fn normalize_key(key: &[u8], n: usize) -> (r: Vec<u8>)
    ensures
        r@ == normalized_key(key@, n as nat),
{
    let mut out: Vec<u8> = Vec::new();
    let mut i: usize = 0;
    while i < n
        invariant
            i <= n,
            out@.len() == i,
            forall|j: int|
                0 <= j < i ==> out@[j] == (if j < key@.len() {
                    key@[j]
                } else {
                    0u8
                }),
        decreases n - i,
    {
        if i < key.len() {
            out.push(key[i]);
        } else {
            out.push(0u8);
        }
        i = i + 1;
    }
    proof {
        assert(out@ =~= normalized_key(key@, n as nat));
    }
    out
}

/// The fixed all-zero 12-byte nonce of the stream-cipher scheme.
pub open spec fn zero_nonce() -> Seq<u8> {
    Seq::new(12, |i: int| 0u8)
}

/// Builds the fixed all-zero nonce.
fn make_zero_nonce() -> (r: Vec<u8>)
    ensures
        r@ == zero_nonce(),
{
    let mut out: Vec<u8> = Vec::new();
    let mut i: usize = 0;
    while i < 12
        invariant
            i <= 12,
            out@.len() == i,
            forall|j: int| 0 <= j < i ==> out@[j] == 0u8,
        decreases 12 - i,
    {
        out.push(0u8);
        i = i + 1;
    }
    proof {
        assert(out@ =~= zero_nonce());
    }
    out
}

/// The AES-256 ECB/PKCS#7 encryption of a message under a 32-byte key.
pub uninterp spec fn aes256_ecb_enc(key: Seq<u8>, plaintext: Seq<u8>) -> Seq<u8>;

/// What AES-256 ECB/PKCS#7 decryption under a 32-byte key recovers from a
/// byte string, or `None` where the bytes are no padded message under the key.
pub uninterp spec fn aes256_ecb_dec(key: Seq<u8>, ciphertext: Seq<u8>) -> Option<Seq<u8>>;

/// Relies on `Ecb::<Aes256, Pkcs7>::encrypt_vec` of `block-modes`: the output
/// is the message padded to the next full 16-byte block and encrypted, and
/// `decrypt_vec` under the same key recovers the message.
#[verifier::external_body]
fn aes256_ecb_encrypt(key: &[u8], plaintext: &[u8]) -> (r: Vec<u8>)
    requires
        key@.len() == 32,
    ensures
        r@ == aes256_ecb_enc(key@, plaintext@),
        r@.len() == (plaintext@.len() / 16 + 1) * 16,
        aes256_ecb_dec(key@, r@) == Some(plaintext@),
{
    let cipher = Ecb::<Aes256, Pkcs7>::new_from_slices(key, &[]).unwrap();
    cipher.encrypt_vec(plaintext)
}

/// Relies on `Ecb::<Aes256, Pkcs7>::decrypt_vec` of `block-modes`: it fails
/// exactly when the input is not a padded message under the key, and in
/// particular on any input whose length is not a multiple of 16.
#[verifier::external_body]
fn aes256_ecb_decrypt(key: &[u8], ciphertext: &[u8]) -> (r: Option<Vec<u8>>)
    requires
        key@.len() == 32,
    ensures
        (r matches Some(p) ==> aes256_ecb_dec(key@, ciphertext@) == Some(p@)),
        (r is None ==> aes256_ecb_dec(key@, ciphertext@) is None),
        ciphertext@.len() % 16 != 0 ==> r is None,
{
    let cipher = Ecb::<Aes256, Pkcs7>::new_from_slices(key, &[]).unwrap();
    cipher.decrypt_vec(ciphertext).ok()
}

/// The Blowfish ECB/PKCS#7 encryption of a message under a 32-byte key.
pub uninterp spec fn blowfish_ecb_enc(key: Seq<u8>, plaintext: Seq<u8>) -> Seq<u8>;

/// What Blowfish ECB/PKCS#7 decryption under a 32-byte key recovers from a
/// byte string, or `None` where the bytes are no padded message under the key.
pub uninterp spec fn blowfish_ecb_dec(key: Seq<u8>, ciphertext: Seq<u8>) -> Option<Seq<u8>>;

/// Relies on `Ecb::<Blowfish, Pkcs7>::encrypt_vec` of `block-modes`: the
/// output is the message padded to the next full 8-byte block and encrypted,
/// and `decrypt_vec` under the same key recovers the message. Blowfish
/// accepts keys of 4 to 56 bytes, so a 32-byte key never fails setup.
#[verifier::external_body]
fn blowfish_ecb_encrypt(key: &[u8], plaintext: &[u8]) -> (r: Vec<u8>)
    requires
        key@.len() == 32,
    ensures
        r@ == blowfish_ecb_enc(key@, plaintext@),
        r@.len() == (plaintext@.len() / 8 + 1) * 8,
        blowfish_ecb_dec(key@, r@) == Some(plaintext@),
{
    let cipher = Ecb::<Blowfish, Pkcs7>::new_from_slices(key, &[]).unwrap();
    cipher.encrypt_vec(plaintext)
}

/// Relies on `Ecb::<Blowfish, Pkcs7>::decrypt_vec` of `block-modes`: it fails
/// exactly when the input is not a padded message under the key, and in
/// particular on any input whose length is not a multiple of 8.
#[verifier::external_body]
fn blowfish_ecb_decrypt(key: &[u8], ciphertext: &[u8]) -> (r: Option<Vec<u8>>)
    requires
        key@.len() == 32,
    ensures
        (r matches Some(p) ==> blowfish_ecb_dec(key@, ciphertext@) == Some(p@)),
        (r is None ==> blowfish_ecb_dec(key@, ciphertext@) is None),
        ciphertext@.len() % 8 != 0 ==> r is None,
{
    let cipher = Ecb::<Blowfish, Pkcs7>::new_from_slices(key, &[]).unwrap();
    cipher.decrypt_vec(ciphertext).ok()
}

/// The triple-DES (EDE3) ECB/PKCS#7 encryption of a message under a 24-byte key.
pub uninterp spec fn tdes_ecb_enc(key: Seq<u8>, plaintext: Seq<u8>) -> Seq<u8>;

/// What triple-DES ECB/PKCS#7 decryption under a 24-byte key recovers from a
/// byte string, or `None` where the bytes are no padded message under the key.
pub uninterp spec fn tdes_ecb_dec(key: Seq<u8>, ciphertext: Seq<u8>) -> Option<Seq<u8>>;

/// Relies on `Ecb::<TdesEde3, Pkcs7>::encrypt_vec` of `block-modes`: the
/// output is the message padded to the next full 8-byte block and encrypted,
/// and `decrypt_vec` under the same key recovers the message. `TdesEde3`
/// requires a key of exactly 24 bytes.
#[verifier::external_body]
fn tdes_ecb_encrypt(key: &[u8], plaintext: &[u8]) -> (r: Vec<u8>)
    requires
        key@.len() == 24,
    ensures
        r@ == tdes_ecb_enc(key@, plaintext@),
        r@.len() == (plaintext@.len() / 8 + 1) * 8,
        tdes_ecb_dec(key@, r@) == Some(plaintext@),
{
    let cipher = Ecb::<TdesEde3, Pkcs7>::new_from_slices(key, &[]).unwrap();
    cipher.encrypt_vec(plaintext)
}

/// Relies on `Ecb::<TdesEde3, Pkcs7>::decrypt_vec` of `block-modes`: it fails
/// exactly when the input is not a padded message under the key, and in
/// particular on any input whose length is not a multiple of 8.
#[verifier::external_body]
fn tdes_ecb_decrypt(key: &[u8], ciphertext: &[u8]) -> (r: Option<Vec<u8>>)
    requires
        key@.len() == 24,
    ensures
        (r matches Some(p) ==> tdes_ecb_dec(key@, ciphertext@) == Some(p@)),
        (r is None ==> tdes_ecb_dec(key@, ciphertext@) is None),
        ciphertext@.len() % 8 != 0 ==> r is None,
{
    let cipher = Ecb::<TdesEde3, Pkcs7>::new_from_slices(key, &[]).unwrap();
    cipher.decrypt_vec(ciphertext).ok()
}

/// The data XORed with the ChaCha20 keystream of the key and nonce.
pub uninterp spec fn chacha20_xor(key: Seq<u8>, nonce: Seq<u8>, data: Seq<u8>) -> Seq<u8>;

/// Relies on `ChaCha20::apply_keystream` of `chacha20`: the data is XORed in
/// place with a keystream determined by the key and nonce alone, so the
/// length is kept and a second application restores the data.
#[verifier::external_body]
fn chacha20_apply(key: &[u8], nonce: &[u8], data: &[u8]) -> (r: Vec<u8>)
    requires
        key@.len() == 32,
        nonce@.len() == 12,
        data@.len() <= MAX_DATA_LEN,
    ensures
        r@ == chacha20_xor(key@, nonce@, data@),
        r@.len() == data@.len(),
        chacha20_xor(key@, nonce@, r@) == data@,
{
    let mut cipher = ChaCha20::new_from_slices(key, nonce).unwrap();
    let mut out = data.to_vec();
    cipher.apply_keystream(&mut out);
    out
}

/// The ciphertext a method produces from a key and a message. The key is
/// taken as supplied for the strict methods and normalized for the others.
pub open spec fn spec_encrypt(method: EncryptionMethod, key: Seq<u8>, plaintext: Seq<u8>) -> Seq<
    u8,
>
    recommends
        key_acceptable(method, key),
{
    match method {
        EncryptionMethod::AES256 => aes256_ecb_enc(key, plaintext),
        EncryptionMethod::Chacha20 => chacha20_xor(key, zero_nonce(), plaintext),
        EncryptionMethod::Blowfish => blowfish_ecb_enc(normalized_key(key, 32), plaintext),
        EncryptionMethod::DESTriphleDES => tdes_ecb_enc(normalized_key(key, 24), plaintext),
    }
}

/// What a method recovers from a key and a byte string, or `None` where the
/// bytes decrypt to no message under the key.
pub open spec fn spec_decrypt(method: EncryptionMethod, key: Seq<u8>, ciphertext: Seq<u8>) -> Option<
    Seq<u8>,
>
    recommends
        key_acceptable(method, key),
{
    match method {
        EncryptionMethod::AES256 => aes256_ecb_dec(key, ciphertext),
        EncryptionMethod::Chacha20 => Some(chacha20_xor(key, zero_nonce(), ciphertext)),
        EncryptionMethod::Blowfish => blowfish_ecb_dec(normalized_key(key, 32), ciphertext),
        EncryptionMethod::DESTriphleDES => tdes_ecb_dec(normalized_key(key, 24), ciphertext),
    }
}

/// Encrypts a message under the tenant's method and key.
///
/// Encryption is deterministic in the method, key and message; no randomness
/// enters per call. A key of the wrong length for a strict method is rejected
/// as malformed input. The second clause of the success case is the round
/// trip: what `encrypt` produced, `decrypt` recovers.
pub fn encrypt(method: &EncryptionMethod, key: &[u8], data: &[u8]) -> (r: Result<
    Vec<u8>,
    SecretError,
>)
    requires
        data@.len() + 16 <= MAX_DATA_LEN,
    ensures
        match r {
            Ok(ct) => key_acceptable(*method, key@) && ct@ == spec_encrypt(*method, key@, data@)
                && spec_decrypt(*method, key@, ct@) == Some(data@) && ct@.len() <= data@.len()
                + 16,
            Err(e) => e == SecretError::ValidationFailure && !key_acceptable(*method, key@),
        },
{
    match method {
        EncryptionMethod::AES256 => {
            if key.len() != 32 {
                return Err(SecretError::ValidationFailure);
            }
            Ok(aes256_ecb_encrypt(key, data))
        },
        EncryptionMethod::Chacha20 => {
            if key.len() != 32 {
                return Err(SecretError::ValidationFailure);
            }
            let nonce = make_zero_nonce();
            Ok(chacha20_apply(key, nonce.as_slice(), data))
        },
        EncryptionMethod::Blowfish => {
            let norm = normalize_key(key, 32);
            Ok(blowfish_ecb_encrypt(norm.as_slice(), data))
        },
        EncryptionMethod::DESTriphleDES => {
            let norm = normalize_key(key, 24);
            Ok(tdes_ecb_encrypt(norm.as_slice(), data))
        },
    }
}

/// Decrypts a byte string under the tenant's method and key.
///
/// A key whose length does not match the requirement of a strict method is
/// rejected with `DecryptionFailure` rather than truncated, and a byte string
/// that is no padded message under the key fails the same way; the caller is
/// never crashed.
pub fn decrypt(method: &EncryptionMethod, key: &[u8], data: &[u8]) -> (r: Result<
    Vec<u8>,
    SecretError,
>)
    requires
        data@.len() <= MAX_DATA_LEN,
    ensures
        match r {
            Ok(p) => key_acceptable(*method, key@) && spec_decrypt(*method, key@, data@) == Some(
                p@,
            ),
            Err(e) => e == SecretError::DecryptionFailure && (!key_acceptable(*method, key@)
                || spec_decrypt(*method, key@, data@) is None),
        },
{
    match method {
        EncryptionMethod::AES256 => {
            if key.len() != 32 {
                return Err(SecretError::DecryptionFailure);
            }
            match aes256_ecb_decrypt(key, data) {
                Some(p) => Ok(p),
                None => Err(SecretError::DecryptionFailure),
            }
        },
        EncryptionMethod::Chacha20 => {
            if key.len() != 32 {
                return Err(SecretError::DecryptionFailure);
            }
            let nonce = make_zero_nonce();
            Ok(chacha20_apply(key, nonce.as_slice(), data))
        },
        EncryptionMethod::Blowfish => {
            let norm = normalize_key(key, 32);
            match blowfish_ecb_decrypt(norm.as_slice(), data) {
                Some(p) => Ok(p),
                None => Err(SecretError::DecryptionFailure),
            }
        },
        EncryptionMethod::DESTriphleDES => {
            let norm = normalize_key(key, 24);
            match tdes_ecb_decrypt(norm.as_slice(), data) {
                Some(p) => Ok(p),
                None => Err(SecretError::DecryptionFailure),
            }
        },
    }
}

} // verus!
