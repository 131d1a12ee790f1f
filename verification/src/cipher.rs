//! Wrapping of a data key under the key-encryption key.
//!
//! The cipher is AES-256 in cipher-block-chaining mode with PKCS#7 padding.
//! It carries no integrity tag: a wrapped key that was tampered with may
//! unwrap to other bytes with no error.

use crate::error::KeyError;
use aes::Aes256;
use block_modes::block_padding::Pkcs7;
use block_modes::{BlockMode, BlockModeError, Cbc, InvalidKeyIvLength};
use vstd::prelude::*;

verus! {

/// The length of a key-encryption key, in bytes.
pub const KEK_LENGTH: usize = 32;

/// The length of an initialisation vector, and of one cipher block, in bytes.
pub const BLOCK_LENGTH: usize = 16;

/// The length of a wrapped data key, in bytes: the data key and one full
/// block of padding.
pub const WRAPPED_LENGTH: usize = 48;

#[verifier::external_type_specification]
#[verifier::external_body]
pub struct ExInvalidKeyIvLength(InvalidKeyIvLength);

#[verifier::external_type_specification]
#[verifier::external_body]
pub struct ExBlockModeError(BlockModeError);

/// What `encrypt_vec` of `Cbc<Aes256, Pkcs7>` returns for a plaintext, once
/// the cipher was made from a key of 32 bytes and a vector of 16.
pub uninterp spec fn aes256_cbc_encrypt(key: Seq<u8>, iv: Seq<u8>, plaintext: Seq<u8>) -> Seq<u8>;

/// What `decrypt_vec` of `Cbc<Aes256, Pkcs7>` returns for a ciphertext, once
/// the cipher was made from a key of 32 bytes and a vector of 16: the
/// plaintext, or nothing where it reports an error.
pub uninterp spec fn aes256_cbc_decrypt(key: Seq<u8>, iv: Seq<u8>, ciphertext: Seq<u8>) -> Option<
    Seq<u8>,
>;

/// Makes the cipher with `BlockMode::new_from_slices` and runs
/// `BlockMode::encrypt_vec` on it.
///
/// Believed of them, not proved: the cipher is made exactly when the key has
/// 32 bytes and the vector 16; the ciphertext is a function of key, vector
/// and plaintext alone; its length is the least multiple of 16 above the
/// plaintext's; and decrypting it with the same key and vector gives the
/// plaintext back.
#[verifier::external_body]
fn cbc_encrypt(key: &[u8], iv: &[u8], plaintext: &[u8]) -> (r: Result<Vec<u8>, InvalidKeyIvLength>)
    ensures
        r is Ok <==> (key@.len() == 32 && iv@.len() == 16),
        r matches Ok(c) ==> c@ == aes256_cbc_encrypt(key@, iv@, plaintext@),
        r matches Ok(c) ==> c@.len() == plaintext@.len() + 16 - plaintext@.len() % 16,
        r matches Ok(c) ==> aes256_cbc_decrypt(key@, iv@, c@) == Some(plaintext@),
{
    Ok(Cbc::<Aes256, Pkcs7>::new_from_slices(key, iv)?.encrypt_vec(plaintext))
}

/// Makes the cipher with `BlockMode::new_from_slices` and runs
/// `BlockMode::decrypt_vec` on it.
///
/// Believed of them, not proved: the cipher is made exactly when the key has
/// 32 bytes and the vector 16; whether decryption succeeds, and with what, is
/// a function of key, vector and ciphertext alone; a ciphertext that is
/// empty or not a whole number of blocks is refused; and a plaintext that
/// comes back is shorter than the ciphertext.
#[verifier::external_body]
fn cbc_decrypt(key: &[u8], iv: &[u8], ciphertext: &[u8]) -> (r: Result<
    Result<Vec<u8>, BlockModeError>,
    InvalidKeyIvLength,
>)
    ensures
        r is Ok <==> (key@.len() == 32 && iv@.len() == 16),
        r matches Ok(Ok(p)) ==> aes256_cbc_decrypt(key@, iv@, ciphertext@) == Some(p@),
        r matches Ok(Err(_)) ==> aes256_cbc_decrypt(key@, iv@, ciphertext@) is None,
        r matches Ok(Ok(p)) ==> (ciphertext@.len() % 16 == 0 && p@.len() < ciphertext@.len()),
{
    Ok(Cbc::<Aes256, Pkcs7>::new_from_slices(key, iv)?.decrypt_vec(ciphertext))
}

/// The wrapped form of a data key: `KeyLengthInvalid` unless the
/// key-encryption key has exactly 32 bytes, else the ciphertext.
pub open spec fn wrap_key_spec(dek: Seq<u8>, kek: Seq<u8>, iv: Seq<u8>) -> Result<
    Seq<u8>,
    KeyError,
> {
    if kek.len() != 32 {
        Err(KeyError::KeyLengthInvalid)
    } else {
        Ok(aes256_cbc_encrypt(kek, iv, dek))
    }
}

/// What unwrapping gives: `KeyLengthInvalid` unless the key-encryption key
/// has exactly 32 bytes, `DecryptFailure` where the cipher refuses the
/// ciphertext, else the plaintext.
pub open spec fn unwrap_key_spec(encrypted_key: Seq<u8>, kek: Seq<u8>, iv: Seq<u8>) -> Result<
    Seq<u8>,
    KeyError,
> {
    if kek.len() != 32 {
        Err(KeyError::KeyLengthInvalid)
    } else {
        match aes256_cbc_decrypt(kek, iv, encrypted_key) {
            Some(plaintext) => Ok(plaintext),
            None => Err(KeyError::DecryptFailure),
        }
    }
}

/// The view of an outcome that holds bytes.
pub open spec fn bytes_view(r: Result<Vec<u8>, KeyError>) -> Result<Seq<u8>, KeyError> {
    match r {
        Ok(bytes) => Ok(bytes@),
        Err(e) => Err(e),
    }
}

/// Wraps a data key under a key-encryption key and an initialisation vector.
///
/// Fails with `KeyLengthInvalid` exactly when the key-encryption key is not
/// 32 bytes long. The wrapped key has 48 bytes, and unwrapping it with the
/// same key and vector gives the data key back.
pub fn wrap_key(dek: &[u8; 32], kek: &[u8], iv: &[u8; 16]) -> (r: Result<Vec<u8>, KeyError>)
    ensures
        bytes_view(r) == wrap_key_spec(dek@, kek@, iv@),
        r is Ok <==> kek@.len() == KEK_LENGTH,
        r matches Ok(c) ==> c@.len() == WRAPPED_LENGTH,
        r matches Ok(c) ==> unwrap_key_spec(c@, kek@, iv@) == Ok::<Seq<u8>, KeyError>(dek@),
{
    match cbc_encrypt(kek, iv.as_slice(), dek.as_slice()) {
        Ok(encrypted_key) => Ok(encrypted_key),
        Err(_) => Err(KeyError::KeyLengthInvalid),
    }
}

/// Unwraps a data key.
///
/// Fails with `KeyLengthInvalid` exactly when the key-encryption key is not
/// 32 bytes long, and with `DecryptFailure` where the ciphertext is empty,
/// is not a whole number of 16-byte blocks, or decrypts to malformed
/// padding. Nothing else is checked: the bytes that come back are those that
/// were wrapped only if the ciphertext, the key and the vector are.
pub fn unwrap_key(encrypted_key: &[u8], kek: &[u8], iv: &[u8; 16]) -> (r: Result<
    Vec<u8>,
    KeyError,
>)
    ensures
        bytes_view(r) == unwrap_key_spec(encrypted_key@, kek@, iv@),
        kek@.len() != KEK_LENGTH <==> r == Err::<Vec<u8>, KeyError>(KeyError::KeyLengthInvalid),
        (kek@.len() == KEK_LENGTH && (encrypted_key@.len() == 0 || encrypted_key@.len()
            % BLOCK_LENGTH as nat != 0)) ==> r == Err::<Vec<u8>, KeyError>(
            KeyError::DecryptFailure,
        ),
        r matches Ok(d) ==> d@.len() < encrypted_key@.len(),
{
    match cbc_decrypt(kek, iv.as_slice(), encrypted_key) {
        Ok(Ok(dek)) => Ok(dek),
        Ok(Err(_)) => Err(KeyError::DecryptFailure),
        Err(_) => Err(KeyError::KeyLengthInvalid),
    }
}

} // verus!
