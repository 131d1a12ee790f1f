//! Key management for encrypted backups.
//!
//! A verification record binds an installation to one passphrase. The key
//! derived from the passphrase both proves the passphrase right and wraps the
//! data keys: whoever holds the record's digest holds the key-encryption key,
//! so the record is to be kept from other readers.

use crate::cipher::{bytes_view, unwrap_key, unwrap_key_spec, wrap_key, wrap_key_spec};
use crate::compare::constant_time_eq;
use crate::error::KeyError;
use crate::hex::{hex_encode, hex_encode_spec, is_lower_hex_char};
use crate::kdf::{
    derive_key, derive_key_spec, is_hashable, is_malformed_salt, parses_as_phc, phc_text_parses,
    DerivedKey, DerivedKeyView, MAX_PASSWORD_LENGTH,
};
use crate::random::{fresh_dek, fresh_iv, random_salt};
use vstd::prelude::*;
use vstd::string::*;
use vstd::utf8::*;

verus! {

/// The wrapped data key of one backup, stored beside it.
#[derive(Debug, PartialEq, Eq)]
pub struct EncryptionKeyMetadata {
    pub iv: [u8; 16],
    pub encrypted_key: Vec<u8>,
}

/// The mathematical value of an [`EncryptionKeyMetadata`].
pub struct EncryptionKeyMetadataView {
    pub iv: Seq<u8>,
    pub encrypted_key: Seq<u8>,
}

impl View for EncryptionKeyMetadata {
    type V = EncryptionKeyMetadataView;

    open spec fn view(&self) -> EncryptionKeyMetadataView {
        EncryptionKeyMetadataView { iv: self.iv@, encrypted_key: self.encrypted_key@ }
    }
}

impl EncryptionKeyMetadata {
    /// Metadata as key generation writes it: a vector of 16 bytes and a
    /// wrapped key of 48.
    pub open spec fn is_well_formed(&self) -> bool {
        self.iv@.len() == 16 && self.encrypted_key@.len() == 48
    }
}

/// The verification record of an installation: the salt, and the digest of
/// the passphrase under that salt as self-describing text.
#[derive(Debug, PartialEq, Eq)]
pub struct KekInfo {
    pub salt: String,
    pub hash: String,
}

/// The mathematical value of a [`KekInfo`].
pub struct KekInfoView {
    pub salt: Seq<char>,
    pub hash: Seq<char>,
}

impl View for KekInfo {
    type V = KekInfoView;

    open spec fn view(&self) -> KekInfoView {
        KekInfoView { salt: self.salt@, hash: self.hash@ }
    }
}

/// The record that a passphrase and a salt give: the salt, and the digest
/// text of one derivation.
pub open spec fn bootstrap_spec(passphrase: Seq<char>, salt: Seq<char>) -> Result<
    KekInfoView,
    KeyError,
> {
    match derive_key_spec(encode_utf8(passphrase), salt) {
        Ok(derived) => Ok(KekInfoView { salt, hash: derived.encoded }),
        Err(e) => Err(e),
    }
}

/// Whether a text is plainly no password hash: it is empty or does not begin
/// with `$`.
pub open spec fn lacks_hash_marker(hash: Seq<char>) -> bool {
    hash.len() == 0 || hash[0] != '$'
}

/// A record whose digest text cannot be read as a password hash is
/// `RecordCorrupt`. Else a derived key is accepted by the record exactly when
/// its digest text is the record's; it then serves as the key-encryption
/// key.
pub open spec fn check_passphrase_spec(derived: DerivedKeyView, record: KekInfoView) -> Result<
    Seq<u8>,
    KeyError,
> {
    if !phc_text_parses(record.hash) {
        Err(KeyError::RecordCorrupt)
    } else if derived.encoded == record.hash {
        Ok(derived.bytes)
    } else {
        Err(KeyError::VerificationFailure)
    }
}

/// The key-encryption key that a passphrase yields against a record: one
/// derivation under the record's salt, then the check of the record's digest
/// text and against it.
pub open spec fn verify_passphrase_spec(passphrase: Seq<char>, record: KekInfoView) -> Result<
    Seq<u8>,
    KeyError,
> {
    match derive_key_spec(encode_utf8(passphrase), record.salt) {
        Ok(derived) => check_passphrase_spec(derived, record),
        Err(e) => Err(e),
    }
}

/// The hexadecimal data key and the metadata that sealing gives.
pub open spec fn seal_spec(kek: Seq<u8>, dek: Seq<u8>, iv: Seq<u8>) -> Result<
    (Seq<char>, EncryptionKeyMetadataView),
    KeyError,
> {
    match wrap_key_spec(dek, kek, iv) {
        Ok(encrypted_key) => Ok(
            (hex_encode_spec(dek), EncryptionKeyMetadataView { iv, encrypted_key }),
        ),
        Err(e) => Err(e),
    }
}

/// The hexadecimal data key that a key-encryption key recovers from
/// metadata. What unwraps to anything but 32 bytes is no data key, and a
/// `DecryptFailure`.
pub open spec fn open_spec(kek: Seq<u8>, metadata: EncryptionKeyMetadataView) -> Result<
    Seq<char>,
    KeyError,
> {
    match unwrap_key_spec(metadata.encrypted_key, kek, metadata.iv) {
        Ok(dek) => if dek.len() == 32 {
            Ok(hex_encode_spec(dek))
        } else {
            Err(KeyError::DecryptFailure)
        },
        Err(e) => Err(e),
    }
}

/// Whether a text is 64 lowercase hexadecimal digits, as a data key is
/// handed out.
pub open spec fn is_hex_key(text: Seq<char>) -> bool {
    text.len() == 64 && forall|j: int| 0 <= j < 64 ==> is_lower_hex_char(#[trigger] text[j])
}

/// Whether a wrapped key is refused for its length alone: it is empty or no
/// whole number of 16-byte blocks.
pub open spec fn is_misaligned(encrypted_key: Seq<u8>) -> bool {
    encrypted_key.len() == 0 || encrypted_key.len() % 16 != 0
}

/// The hexadecimal data key that a passphrase recovers from metadata,
/// against a record.
pub open spec fn retrieve_key_spec(
    passphrase: Seq<char>,
    record: KekInfoView,
    metadata: EncryptionKeyMetadataView,
) -> Result<Seq<char>, KeyError> {
    match verify_passphrase_spec(passphrase, record) {
        Ok(kek) => open_spec(kek, metadata),
        Err(e) => Err(e),
    }
}

/// The view of an outcome that holds a record.
pub open spec fn record_view(r: Result<KekInfo, KeyError>) -> Result<KekInfoView, KeyError> {
    match r {
        Ok(record) => Ok(record@),
        Err(e) => Err(e),
    }
}

/// The view of an outcome that holds text.
pub open spec fn text_view(r: Result<String, KeyError>) -> Result<Seq<char>, KeyError> {
    match r {
        Ok(text) => Ok(text@),
        Err(e) => Err(e),
    }
}

/// The view of an outcome that holds a hexadecimal data key and its
/// metadata.
pub open spec fn sealed_view(r: Result<(String, EncryptionKeyMetadata), KeyError>) -> Result<
    (Seq<char>, EncryptionKeyMetadataView),
    KeyError,
> {
    match r {
        Ok((hex, metadata)) => Ok((hex@, metadata@)),
        Err(e) => Err(e),
    }
}

/// A passphrase is accepted by the record that it was bootstrapped into, and
/// yields the key of that one derivation, whenever it is asked.
pub proof fn lemma_bootstrap_then_verify(passphrase: Seq<char>, salt: Seq<char>)
    requires
        bootstrap_spec(passphrase, salt) is Ok,
    ensures
        verify_passphrase_spec(passphrase, bootstrap_spec(passphrase, salt)->Ok_0) == Ok::<
            Seq<u8>,
            KeyError,
        >(derive_key_spec(encode_utf8(passphrase), salt)->Ok_0.bytes),
{
}

/// A passphrase whose derivation under the record's salt succeeds with
/// another digest text than the bootstrapped one is rejected with
/// `VerificationFailure`.
pub proof fn lemma_other_passphrase_rejected(
    passphrase: Seq<char>,
    other: Seq<char>,
    salt: Seq<char>,
)
    requires
        bootstrap_spec(passphrase, salt) is Ok,
        derive_key_spec(encode_utf8(other), salt) is Ok,
        derive_key_spec(encode_utf8(other), salt)->Ok_0.encoded != derive_key_spec(
            encode_utf8(passphrase),
            salt,
        )->Ok_0.encoded,
    ensures
        verify_passphrase_spec(other, bootstrap_spec(passphrase, salt)->Ok_0) == Err::<
            Seq<u8>,
            KeyError,
        >(KeyError::VerificationFailure),
{
}

/// Makes the verification record of a passphrase under a given salt, by one
/// derivation.
///
/// It succeeds exactly where Argon2 hashes the passphrase under the salt,
/// and the only failure is `DerivationFailure`; a malformed salt always
/// fails. The passphrase is accepted by the record that comes back.
pub fn bootstrap_with_salt(passphrase: &str, salt: String) -> (r: Result<KekInfo, KeyError>)
    ensures
        record_view(r) == bootstrap_spec(passphrase@, salt@),
        r is Ok <==> is_hashable(encode_utf8(passphrase@), salt@),
        r matches Err(e) ==> e == KeyError::DerivationFailure,
        is_malformed_salt(salt@) ==> r is Err,
        r matches Ok(record) ==> verify_passphrase_spec(passphrase@, record@) is Ok,
{
    match derive_key(passphrase.as_bytes(), salt.as_str()) {
        Ok(derived) => Ok(KekInfo { salt, hash: derived.encoded }),
        Err(e) => Err(e),
    }
}

/// Makes the verification record of a passphrase under a fresh random salt.
///
/// To be called once per installation, when no record exists; the record is
/// never changed afterwards. It succeeds for every passphrase of at most
/// 4294967295 bytes, and the passphrase is accepted by the record that comes
/// back. The only failure is `DerivationFailure`.
pub fn bootstrap(passphrase: &str) -> (r: Result<KekInfo, KeyError>)
    ensures
        encode_utf8(passphrase@).len() <= MAX_PASSWORD_LENGTH ==> r is Ok,
        r matches Ok(record) ==> bootstrap_spec(passphrase@, record.salt@) == Ok::<
            KekInfoView,
            KeyError,
        >(record@),
        r matches Ok(record) ==> verify_passphrase_spec(passphrase@, record@) is Ok,
        r matches Err(e) ==> e == KeyError::DerivationFailure,
{
    bootstrap_with_salt(passphrase, random_salt())
}

/// Keeps the record of an installation that has one, unchanged and
/// whatever the passphrase, and bootstraps one where there is none, which
/// succeeds for every passphrase of at most 4294967295 bytes. The flag tells
/// whether the record is new and has to be stored.
pub fn load_or_bootstrap(existing: Option<KekInfo>, passphrase: &str) -> (r: Result<
    (KekInfo, bool),
    KeyError,
>)
    ensures
        existing matches Some(record) ==> r == Ok::<(KekInfo, bool), KeyError>((record, false)),
        (existing is None && encode_utf8(passphrase@).len() <= MAX_PASSWORD_LENGTH) ==> r is Ok,
        (existing is None && r is Ok) ==> (r->Ok_0.1 && bootstrap_spec(
            passphrase@,
            r->Ok_0.0.salt@,
        ) == Ok::<KekInfoView, KeyError>(r->Ok_0.0@)),
        (existing is None && r is Ok) ==> verify_passphrase_spec(passphrase@, r->Ok_0.0@) is Ok,
        (existing is None && r is Err) ==> r->Err_0 == KeyError::DerivationFailure,
{
    match existing {
        Some(record) => Ok((record, false)),
        None => match bootstrap(passphrase) {
            Ok(record) => Ok((record, true)),
            Err(e) => Err(e),
        },
    }
}

/// Checks a derived key against a record.
///
/// A record whose digest text cannot be read as a password hash, as one that
/// is empty or does not begin with `$`, is `RecordCorrupt`. Else the derived
/// key's digest text is compared with the record's in constant time: on a
/// match the derived bytes are the key-encryption key, and otherwise the
/// outcome is `VerificationFailure`.
pub fn check_passphrase(derived: DerivedKey, record: &KekInfo) -> (r: Result<Vec<u8>, KeyError>)
    ensures
        bytes_view(r) == check_passphrase_spec(derived@, record@),
        lacks_hash_marker(record.hash@) ==> r == Err::<Vec<u8>, KeyError>(
            KeyError::RecordCorrupt,
        ),
        r matches Ok(kek) ==> (kek@ == derived.bytes@ && derived.encoded@ == record.hash@),
{
    if !parses_as_phc(record.hash.as_str()) {
        return Err(KeyError::RecordCorrupt);
    }
    let matches = constant_time_eq(
        derived.encoded.as_str().as_bytes(),
        record.hash.as_str().as_bytes(),
    );
    proof {
        encode_utf8_decode_utf8(derived.encoded@);
        encode_utf8_decode_utf8(record.hash@);
    }
    if matches {
        Ok(derived.bytes)
    } else {
        Err(KeyError::VerificationFailure)
    }
}

/// Verifies a passphrase against a record and yields the key-encryption
/// key.
///
/// The passphrase is derived once under the record's salt. Where that
/// fails, as it does for a malformed salt, the outcome is
/// `DerivationFailure`; else, where the record's digest text cannot be read
/// as a password hash, it is `RecordCorrupt`; else, where the digest text
/// differs from the record's, it is `VerificationFailure`; else it is the 32
/// derived bytes. The same passphrase and record always give the same
/// outcome.
pub fn verify_passphrase(passphrase: &str, record: &KekInfo) -> (r: Result<
    Vec<u8>,
    KeyError,
>)
    ensures
        bytes_view(r) == verify_passphrase_spec(passphrase@, record@),
        r matches Ok(kek) ==> kek@.len() == 32,
        is_malformed_salt(record.salt@) ==> r == Err::<Vec<u8>, KeyError>(
            KeyError::DerivationFailure,
        ),
        (is_hashable(encode_utf8(passphrase@), record.salt@) && lacks_hash_marker(record.hash@))
            ==> r == Err::<Vec<u8>, KeyError>(KeyError::RecordCorrupt),
{
    match derive_key(passphrase.as_bytes(), record.salt.as_str()) {
        Ok(derived) => check_passphrase(derived, record),
        Err(e) => Err(e),
    }
}

/// Wraps a data key under a key-encryption key and hands out the data key
/// as 64 lowercase hexadecimal digits together with the metadata to store.
///
/// Fails with `KeyLengthInvalid` exactly when the key-encryption key is not
/// 32 bytes long. Opening the metadata with the same key gives the same
/// hexadecimal text.
pub fn seal_data_key(kek: &[u8], dek: &[u8; 32], iv: [u8; 16]) -> (r: Result<
    (String, EncryptionKeyMetadata),
    KeyError,
>)
    ensures
        sealed_view(r) == seal_spec(kek@, dek@, iv@),
        r is Ok <==> kek@.len() == 32,
        r matches Ok(sealed) ==> (is_hex_key(sealed.0@) && sealed.1.is_well_formed()),
        r matches Ok(sealed) ==> open_spec(kek@, sealed.1@) == Ok::<Seq<char>, KeyError>(
            sealed.0@,
        ),
{
    match wrap_key(dek, kek, &iv) {
        Ok(encrypted_key) => {
            let hex = hex_encode(dek.as_slice());
            proof {
                crate::hex::lemma_hex_encode_shape(dek@);
            }
            Ok((hex, EncryptionKeyMetadata { iv, encrypted_key }))
        },
        Err(e) => Err(e),
    }
}

/// Recovers the hexadecimal data key from metadata with a key-encryption
/// key.
///
/// Fails with `KeyLengthInvalid` exactly when the key-encryption key is not
/// 32 bytes long, and with `DecryptFailure` where the wrapped key cannot be
/// decrypted, as one that is empty or no whole number of 16-byte blocks, or
/// decrypts to anything but 32 bytes. What comes back is 64 lowercase
/// hexadecimal digits.
pub fn open_data_key(kek: &[u8], metadata: &EncryptionKeyMetadata) -> (r: Result<String, KeyError>)
    ensures
        text_view(r) == open_spec(kek@, metadata@),
        kek@.len() != 32 <==> r == Err::<String, KeyError>(KeyError::KeyLengthInvalid),
        (kek@.len() == 32 && is_misaligned(metadata.encrypted_key@)) ==> r == Err::<
            String,
            KeyError,
        >(KeyError::DecryptFailure),
        r matches Ok(hex) ==> is_hex_key(hex@),
{
    match unwrap_key(metadata.encrypted_key.as_slice(), kek, &metadata.iv) {
        Ok(dek) => {
            if dek.len() != 32 {
                return Err(KeyError::DecryptFailure);
            }
            let hex = hex_encode(dek.as_slice());
            proof {
                crate::hex::lemma_hex_encode_shape(dek@);
            }
            Ok(hex)
        },
        Err(e) => Err(e),
    }
}

/// Generates the data key of a new backup.
///
/// The passphrase is verified against the record; a fresh vector of 16 bytes
/// and a fresh data key of 32 are drawn; the data key is wrapped. It succeeds
/// exactly when the passphrase verifies, and fails as verification does.
/// What comes back is the data key as 64 lowercase hexadecimal digits and
/// the metadata to store beside the backup; retrieving with the same
/// passphrase and record gives the same hexadecimal text. Nothing is stored
/// here.
pub fn generate_key(passphrase: &str, record: &KekInfo) -> (r: Result<
    (String, EncryptionKeyMetadata),
    KeyError,
>)
    ensures
        r is Ok <==> verify_passphrase_spec(passphrase@, record@) is Ok,
        r matches Err(e) ==> verify_passphrase_spec(passphrase@, record@) == Err::<
            Seq<u8>,
            KeyError,
        >(e),
        is_malformed_salt(record.salt@) ==> (r matches Err(e) && e
            == KeyError::DerivationFailure),
        (is_hashable(encode_utf8(passphrase@), record.salt@) && lacks_hash_marker(record.hash@))
            ==> (r matches Err(e) && e == KeyError::RecordCorrupt),
        r matches Ok(sealed) ==> (exists|dek: Seq<u8>|
            dek.len() == 32 && #[trigger] seal_spec(
                verify_passphrase_spec(passphrase@, record@)->Ok_0,
                dek,
                sealed.1.iv@,
            ) == Ok::<(Seq<char>, EncryptionKeyMetadataView), KeyError>((sealed.0@, sealed.1@))),
        r matches Ok(sealed) ==> (is_hex_key(sealed.0@) && sealed.1.is_well_formed()),
        r matches Ok(sealed) ==> retrieve_key_spec(passphrase@, record@, sealed.1@) == Ok::<
            Seq<char>,
            KeyError,
        >(sealed.0@),
{
    match verify_passphrase(passphrase, record) {
        Ok(kek) => {
            let iv = fresh_iv();
            let dek = fresh_dek();
            seal_data_key(kek.as_slice(), &dek, iv)
        },
        Err(e) => Err(e),
    }
}

/// Recovers the data key of a backup from its metadata.
///
/// The passphrase is verified against the record, then the wrapped key is
/// unwrapped and written as lowercase hexadecimal. It fails as verification
/// does, and with `DecryptFailure` where the wrapped key cannot be
/// decrypted, as one that is empty or no whole number of 16-byte blocks, or
/// decrypts to anything but 32 bytes. What comes back is 64 lowercase
/// hexadecimal digits.
pub fn retrieve_key(
    passphrase: &str,
    record: &KekInfo,
    metadata: &EncryptionKeyMetadata,
) -> (r: Result<String, KeyError>)
    ensures
        text_view(r) == retrieve_key_spec(passphrase@, record@, metadata@),
        r matches Ok(hex) ==> is_hex_key(hex@),
        is_malformed_salt(record.salt@) ==> r == Err::<String, KeyError>(
            KeyError::DerivationFailure,
        ),
        (is_hashable(encode_utf8(passphrase@), record.salt@) && lacks_hash_marker(record.hash@))
            ==> r == Err::<String, KeyError>(KeyError::RecordCorrupt),
        (verify_passphrase_spec(passphrase@, record@) is Ok && is_misaligned(
            metadata.encrypted_key@,
        )) ==> r == Err::<String, KeyError>(KeyError::DecryptFailure),
{
    match verify_passphrase(passphrase, record) {
        Ok(kek) => open_data_key(kek.as_slice(), metadata),
        Err(e) => Err(e),
    }
}

/// What was found where a value is kept: nothing, something that cannot be
/// read as such a value, or the value.
#[derive(Debug, PartialEq, Eq)]
pub enum Stored<T> {
    Missing,
    Corrupt,
    Present(T),
}

/// The view of a record as it was found.
pub open spec fn stored_record_view(record: Stored<KekInfo>) -> Stored<KekInfoView> {
    match record {
        Stored::Missing => Stored::Missing,
        Stored::Corrupt => Stored::Corrupt,
        Stored::Present(r) => Stored::Present(r@),
    }
}

/// The view of metadata as it was found.
pub open spec fn stored_metadata_view(metadata: Stored<EncryptionKeyMetadata>) -> Stored<
    EncryptionKeyMetadataView,
> {
    match metadata {
        Stored::Missing => Stored::Missing,
        Stored::Corrupt => Stored::Corrupt,
        Stored::Present(m) => Stored::Present(m@),
    }
}

/// The view of a passphrase that may not be configured.
pub open spec fn configured_view(passphrase: Option<&str>) -> Option<Seq<char>> {
    match passphrase {
        Some(p) => Some(p@),
        None => None,
    }
}

/// Whether a record was found and has a malformed salt.
pub open spec fn has_malformed_salt(record: Stored<KekInfo>) -> bool {
    record matches Stored::Present(r) && is_malformed_salt(r.salt@)
}

/// Whether a passphrase and a record were found, the passphrase can be
/// hashed under the record's salt, and the record's digest text is plainly
/// no password hash.
pub open spec fn has_unmarked_hash(passphrase: Option<&str>, record: Stored<KekInfo>) -> bool {
    passphrase matches Some(p) && record matches Stored::Present(r) && is_hashable(
        encode_utf8(p@),
        r.salt@,
    ) && lacks_hash_marker(r.hash@)
}

/// The key-encryption key of an installation: `ConfigurationMissing` without
/// a passphrase, then `RecordMissing` or `RecordCorrupt` without a readable
/// record, else what verification gives.
pub open spec fn retrieve_key_encryption_key_spec(
    passphrase: Option<Seq<char>>,
    record: Stored<KekInfoView>,
) -> Result<Seq<u8>, KeyError> {
    match passphrase {
        None => Err(KeyError::ConfigurationMissing),
        Some(p) => match record {
            Stored::Missing => Err(KeyError::RecordMissing),
            Stored::Corrupt => Err(KeyError::RecordCorrupt),
            Stored::Present(r) => verify_passphrase_spec(p, r),
        },
    }
}

/// The data key of a backup: `MetadataMissing` or `MetadataCorrupt` without
/// readable metadata, then as the key-encryption key fails, else what the
/// key-encryption key opens.
pub open spec fn retrieve_encryption_key_spec(
    passphrase: Option<Seq<char>>,
    record: Stored<KekInfoView>,
    metadata: Stored<EncryptionKeyMetadataView>,
) -> Result<Seq<char>, KeyError> {
    match metadata {
        Stored::Missing => Err(KeyError::MetadataMissing),
        Stored::Corrupt => Err(KeyError::MetadataCorrupt),
        Stored::Present(m) => match retrieve_key_encryption_key_spec(passphrase, record) {
            Ok(kek) => open_spec(kek, m),
            Err(e) => Err(e),
        },
    }
}

/// Yields the key-encryption key of an installation from its configured
/// passphrase and its stored record, as they were found.
///
/// Without a passphrase the outcome is `ConfigurationMissing`; else, without
/// a record, `RecordMissing`, and with an unreadable one `RecordCorrupt`;
/// else it is what [`verify_passphrase`] gives: `DerivationFailure` for a
/// malformed salt, `RecordCorrupt` for a digest text that is no password
/// hash, `VerificationFailure` for another passphrase.
pub fn retrieve_key_encryption_key(passphrase: Option<&str>, record: &Stored<KekInfo>) -> (r:
    Result<Vec<u8>, KeyError>)
    ensures
        bytes_view(r) == retrieve_key_encryption_key_spec(
            configured_view(passphrase),
            stored_record_view(*record),
        ),
        r matches Ok(kek) ==> kek@.len() == 32,
        (passphrase is Some && has_malformed_salt(*record)) ==> r == Err::<Vec<u8>, KeyError>(
            KeyError::DerivationFailure,
        ),
        has_unmarked_hash(passphrase, *record) ==> r == Err::<Vec<u8>, KeyError>(
            KeyError::RecordCorrupt,
        ),
{
    match passphrase {
        None => Err(KeyError::ConfigurationMissing),
        Some(p) => match record {
            Stored::Missing => Err(KeyError::RecordMissing),
            Stored::Corrupt => Err(KeyError::RecordCorrupt),
            Stored::Present(r) => verify_passphrase(p, r),
        },
    }
}

/// Generates the data key of a new backup from the configured passphrase
/// and the stored record, as they were found.
///
/// It succeeds exactly when the key-encryption key can be had, and fails as
/// [`retrieve_key_encryption_key`] does. What comes back is the data key as
/// 64 lowercase hexadecimal digits and the metadata to store beside the
/// backup; retrieving with that metadata gives the same hexadecimal text.
pub fn generate_encryption_key(passphrase: Option<&str>, record: &Stored<KekInfo>) -> (r: Result<
    (String, EncryptionKeyMetadata),
    KeyError,
>)
    ensures
        r is Ok <==> retrieve_key_encryption_key_spec(
            configured_view(passphrase),
            stored_record_view(*record),
        ) is Ok,
        r matches Err(e) ==> retrieve_key_encryption_key_spec(
            configured_view(passphrase),
            stored_record_view(*record),
        ) == Err::<Seq<u8>, KeyError>(e),
        r matches Ok(sealed) ==> (exists|dek: Seq<u8>|
            dek.len() == 32 && #[trigger] seal_spec(
                retrieve_key_encryption_key_spec(
                    configured_view(passphrase),
                    stored_record_view(*record),
                )->Ok_0,
                dek,
                sealed.1.iv@,
            ) == Ok::<(Seq<char>, EncryptionKeyMetadataView), KeyError>((sealed.0@, sealed.1@))),
        (passphrase is Some && has_malformed_salt(*record)) ==> (r matches Err(e) && e
            == KeyError::DerivationFailure),
        has_unmarked_hash(passphrase, *record) ==> (r matches Err(e) && e
            == KeyError::RecordCorrupt),
        r matches Ok(sealed) ==> (is_hex_key(sealed.0@) && sealed.1.is_well_formed()),
        r matches Ok(sealed) ==> retrieve_encryption_key_spec(
            configured_view(passphrase),
            stored_record_view(*record),
            Stored::Present(sealed.1@),
        ) == Ok::<Seq<char>, KeyError>(sealed.0@),
{
    match passphrase {
        None => Err(KeyError::ConfigurationMissing),
        Some(p) => match record {
            Stored::Missing => Err(KeyError::RecordMissing),
            Stored::Corrupt => Err(KeyError::RecordCorrupt),
            Stored::Present(r) => generate_key(p, r),
        },
    }
}

/// Recovers the data key of a backup from the configured passphrase, the
/// stored record and the backup's metadata, as they were found.
///
/// Missing or unreadable metadata is reported first, as `MetadataMissing`
/// or `MetadataCorrupt`; then the failures of
/// [`retrieve_key_encryption_key`]; then `DecryptFailure` where the wrapped
/// key cannot be decrypted, as one that is empty or no whole number of
/// 16-byte blocks, or decrypts to anything but 32 bytes. What comes back is
/// 64 lowercase hexadecimal digits.
pub fn retrieve_encryption_key(
    passphrase: Option<&str>,
    record: &Stored<KekInfo>,
    metadata: &Stored<EncryptionKeyMetadata>,
) -> (r: Result<String, KeyError>)
    ensures
        text_view(r) == retrieve_encryption_key_spec(
            configured_view(passphrase),
            stored_record_view(*record),
            stored_metadata_view(*metadata),
        ),
        r matches Ok(hex) ==> is_hex_key(hex@),
        (*metadata is Present && passphrase is Some && has_malformed_salt(*record)) ==> r == Err::<
            String,
            KeyError,
        >(KeyError::DerivationFailure),
        (*metadata is Present && has_unmarked_hash(passphrase, *record)) ==> r == Err::<
            String,
            KeyError,
        >(KeyError::RecordCorrupt),
        (*metadata matches Stored::Present(m) && is_misaligned(m.encrypted_key@)
            && retrieve_key_encryption_key_spec(
            configured_view(passphrase),
            stored_record_view(*record),
        ) is Ok) ==> r == Err::<String, KeyError>(KeyError::DecryptFailure),
{
    match metadata {
        Stored::Missing => Err(KeyError::MetadataMissing),
        Stored::Corrupt => Err(KeyError::MetadataCorrupt),
        Stored::Present(m) => match retrieve_key_encryption_key(passphrase, record) {
            Ok(kek) => open_data_key(kek.as_slice(), m),
            Err(e) => Err(e),
        },
    }
}

} // verus!
