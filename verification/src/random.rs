//! Fresh random material: initialisation vectors, data keys and salts.

use crate::kdf::{argon2id_hash, is_malformed_salt, MAX_PASSWORD_LENGTH};
use argon2::password_hash::SaltString;
use rand::rngs::OsRng;
use rand::Rng;
use vstd::prelude::*;

verus! {

/// Draws one byte with `Rng::gen` from `rand::thread_rng()`, a generator that
/// is seeded by the operating system. Nothing is claimed of the byte.
#[verifier::external_body]
fn random_byte() -> u8 {
    rand::thread_rng().gen::<u8>()
}

/// Makes a salt with `SaltString::generate` from the operating system's
/// random source and hands out its text.
///
/// Believed of it, not proved: the text is 16 random bytes in unpadded
/// Base64, so 22 characters that may all stand in a salt; and under such a
/// salt Argon2 hashes every password of at most 4294967295 bytes. Nothing is
/// claimed of which salt it is.
#[verifier::external_body]
pub(crate) fn random_salt() -> (salt: String)
    ensures
        !is_malformed_salt(salt@),
        forall|password: Seq<u8>|
            password.len() <= MAX_PASSWORD_LENGTH ==> (#[trigger] argon2id_hash(
                password,
                salt@,
            )) matches Some((Some(_), _)),
{
    SaltString::generate(&mut OsRng).as_str().to_string()
}

/// Draws a fresh initialisation vector.
pub fn fresh_iv() -> [u8; 16] {
    let mut iv: [u8; 16] = [0u8; 16];
    let mut i: usize = 0;
    while i < 16
        invariant
            i <= 16,
        decreases 16 - i,
    {
        iv[i] = random_byte();
        i = i + 1;
    }
    iv
}

/// Draws a fresh data key.
pub fn fresh_dek() -> [u8; 32] {
    let mut dek: [u8; 32] = [0u8; 32];
    let mut i: usize = 0;
    while i < 32
        invariant
            i <= 32,
        decreases 32 - i,
    {
        dek[i] = random_byte();
        i = i + 1;
    }
    dek
}

} // verus!
