//! Derivation of the key-encryption key from a passphrase and a salt.
//!
//! The derivation is Argon2id with the cost parameters that the `argon2`
//! crate uses by default (version 0x13, 4096 KiB of memory, 3 passes, 1 lane,
//! 32 bytes of output). They are fixed: no caller can tune them.

use crate::error::KeyError;
use argon2::password_hash::Error;
use argon2::{Argon2, PasswordHash, PasswordHasher};
use vstd::prelude::*;

verus! {

/// What one derivation yields: the raw digest, which serves as the
/// key-encryption key, and the self-describing text that names the algorithm,
/// its cost parameters, the salt and the digest.
#[derive(Debug, PartialEq, Eq)]
pub struct DerivedKey {
    pub bytes: Vec<u8>,
    pub encoded: String,
}

/// The mathematical value of a [`DerivedKey`].
pub struct DerivedKeyView {
    pub bytes: Seq<u8>,
    pub encoded: Seq<char>,
}

impl View for DerivedKey {
    type V = DerivedKeyView;

    open spec fn view(&self) -> DerivedKeyView {
        DerivedKeyView { bytes: self.bytes@, encoded: self.encoded@ }
    }
}

#[verifier::external_type_specification]
#[verifier::external_body]
pub struct ExPasswordHashError(Error);

/// What `Argon2::default().hash_password_simple` returns for a password and a
/// salt text: nothing where it reports an error, else the digest, where the
/// hash carries one, and the hash written out as text.
pub uninterp spec fn argon2id_hash(password: Seq<u8>, salt: Seq<char>) -> Option<
    (Option<Seq<u8>>, Seq<char>),
>;

/// Whether `PasswordHash::new` reads a text as a password hash: as the
/// algorithm's name and, each optional, its version, its cost parameters, a
/// salt and a digest, each after a `$`.
pub uninterp spec fn phc_text_parses(hash: Seq<char>) -> bool;

/// The longest password that Argon2 takes, in bytes.
pub const MAX_PASSWORD_LENGTH: u64 = 0xFFFF_FFFF;

/// Whether a character may stand in a salt: a letter or a digit of the
/// ASCII range, or one of `/`, `+`, `.` and `-`.
pub open spec fn is_salt_char(c: char) -> bool {
    ('A' <= c && c <= 'Z') || ('a' <= c && c <= 'z') || ('0' <= c && c <= '9') || c == '/' || c
        == '+' || c == '.' || c == '-'
}

/// Whether a salt is refused for its form alone: it has fewer than 11
/// characters, which stand for fewer than 8 bytes, or more than 64, or a
/// character that may not stand in a salt.
pub open spec fn is_malformed_salt(salt: Seq<char>) -> bool {
    salt.len() < 11 || salt.len() > 64 || exists|i: int|
        0 <= i < salt.len() && !is_salt_char(#[trigger] salt[i])
}

/// The view of an optional byte string.
pub open spec fn optional_bytes_view(bytes: Option<Vec<u8>>) -> Option<Seq<u8>> {
    match bytes {
        Some(b) => Some(b@),
        None => None,
    }
}

/// Calls `PasswordHasher::hash_password_simple` on `Argon2::default()`.
///
/// Believed of it, not proved: the outcome is a function of the password and
/// the salt alone; a salt is refused where it has more than 64 characters or
/// one outside `[a-zA-Z0-9/+.-]`, and where it has fewer than 11, which in
/// unpadded Base64 stand for fewer than the 8 bytes that Argon2 asks for;
/// a hash that comes back carries a digest of 32 bytes; and its text is one
/// that `PasswordHash::new` reads.
#[verifier::external_body]
fn argon2_hash_password(password: &[u8], salt: &str) -> (r: Result<
    (Option<Vec<u8>>, String),
    Error,
>)
    ensures
        r matches Ok(h) ==> (argon2id_hash(password@, salt@) == Some(
            (optional_bytes_view(h.0), h.1@),
        )),
        r is Err ==> argon2id_hash(password@, salt@) is None,
        is_malformed_salt(salt@) ==> r is Err,
        r matches Ok(h) ==> (h.0 matches Some(b) && b@.len() == 32),
        r matches Ok(h) ==> phc_text_parses(h.1@),
{
    let hash = Argon2::default().hash_password_simple(password, salt)?;
    Ok((hash.hash.map(|digest| digest.as_bytes().to_vec()), hash.to_string()))
}

/// Calls `PasswordHash::new` and tells whether it read the text. Believed of
/// it, not proved: that is a function of the text alone, and a text that is
/// read begins with `$`.
#[verifier::external_body]
pub(crate) fn parses_as_phc(hash: &str) -> (ok: bool)
    ensures
        ok == phc_text_parses(hash@),
        ok ==> (hash@.len() > 0 && hash@[0] == '$'),
{
    PasswordHash::new(hash).is_ok()
}

/// The key derived from a password and a salt, or `DerivationFailure` where
/// the derivation refuses them. A derived key's text can always be read back
/// as a password hash; the hasher writes no other.
pub open spec fn derive_key_spec(password: Seq<u8>, salt: Seq<char>) -> Result<
    DerivedKeyView,
    KeyError,
> {
    match argon2id_hash(password, salt) {
        Some((Some(bytes), encoded)) => if phc_text_parses(encoded) {
            Ok(DerivedKeyView { bytes, encoded })
        } else {
            Err(KeyError::DerivationFailure)
        },
        _ => Err(KeyError::DerivationFailure),
    }
}

/// Whether Argon2 hashes a password under a salt and yields a digest.
pub open spec fn is_hashable(password: Seq<u8>, salt: Seq<char>) -> bool {
    argon2id_hash(password, salt) matches Some((Some(_), _))
}

/// The view of a derivation's outcome.
pub open spec fn derived_view(r: Result<DerivedKey, KeyError>) -> Result<
    DerivedKeyView,
    KeyError,
> {
    match r {
        Ok(key) => Ok(key@),
        Err(e) => Err(e),
    }
}

/// Derives the key-encryption key from a password and a salt.
///
/// The same password and salt always give the same key, of 32 bytes, with a
/// text that can be read back as a password hash. It succeeds exactly where
/// Argon2 hashes the password under the salt; the only failure is
/// `DerivationFailure`. A salt of fewer than 11 or more than 64 characters,
/// or with a character that may not stand in a salt, always fails.
pub fn derive_key(password: &[u8], salt: &str) -> (r: Result<DerivedKey, KeyError>)
    ensures
        derived_view(r) == derive_key_spec(password@, salt@),
        r is Ok <==> is_hashable(password@, salt@),
        r matches Ok(key) ==> key.bytes@.len() == 32,
        r matches Ok(key) ==> phc_text_parses(key.encoded@),
        r matches Err(e) ==> e == KeyError::DerivationFailure,
        is_malformed_salt(salt@) ==> r is Err,
{
    match argon2_hash_password(password, salt) {
        Ok((Some(bytes), encoded)) => Ok(DerivedKey { bytes, encoded }),
        Ok((None, _)) => Err(KeyError::DerivationFailure),
        Err(_) => Err(KeyError::DerivationFailure),
    }
}

} // verus!
