//! The failures that key management can report.

use vstd::prelude::*;
use vstd::string::*;

verus! {

/// Why a key operation failed.
#[derive(Clone, Copy, Debug, PartialEq, Eq, Structural)]
pub enum KeyError {
    /// No passphrase was configured.
    ConfigurationMissing,
    /// The installation has no verification record.
    RecordMissing,
    /// The verification record could not be read as one, or its digest text
    /// is no password hash.
    RecordCorrupt,
    /// The backup has no key metadata beside it.
    MetadataMissing,
    /// The key metadata could not be read as such.
    MetadataCorrupt,
    /// The key derivation function rejected its input, for instance a salt
    /// that is malformed or too short.
    DerivationFailure,
    /// The passphrase does not match the verification record.
    VerificationFailure,
    /// The key-encryption key is not exactly 32 bytes long.
    KeyLengthInvalid,
    /// The wrapped key could not be decrypted: its length is not a whole
    /// number of cipher blocks, its padding is malformed, or what it holds
    /// is no data key of 32 bytes.
    DecryptFailure,
}

impl KeyError {
    /// The text shown to the operator for this failure.
    pub open spec fn message_spec(self) -> Seq<char> {
        match self {
            KeyError::ConfigurationMissing => "No encryption passphrase is configured."@,
            KeyError::RecordMissing => "The .kek-info file is missing."@,
            KeyError::RecordCorrupt => "The .kek-info file seems to be invalid. Try removing the file and restarting the application to fix this."@,
            KeyError::MetadataMissing => "Metadata is missing."@,
            KeyError::MetadataCorrupt => "Metadata seems to be of invalid format."@,
            KeyError::DerivationFailure => "Unable to derive the key encryption key."@,
            KeyError::VerificationFailure => "Unable to retrieve key encryption key."@,
            KeyError::KeyLengthInvalid => "InvalidKeyIvLength"@,
            KeyError::DecryptFailure => "BlockModeError"@,
        }
    }

    /// Returns the text shown to the operator for this failure.
    pub fn message(&self) -> (text: String)
        ensures
            text@ == self.message_spec(),
    {
        match self {
            KeyError::ConfigurationMissing => String::from_str(
                "No encryption passphrase is configured.",
            ),
            KeyError::RecordMissing => String::from_str("The .kek-info file is missing."),
            KeyError::RecordCorrupt => String::from_str(
                "The .kek-info file seems to be invalid. Try removing the file and restarting the application to fix this.",
            ),
            KeyError::MetadataMissing => String::from_str("Metadata is missing."),
            KeyError::MetadataCorrupt => String::from_str("Metadata seems to be of invalid format."),
            KeyError::DerivationFailure => String::from_str(
                "Unable to derive the key encryption key.",
            ),
            KeyError::VerificationFailure => String::from_str(
                "Unable to retrieve key encryption key.",
            ),
            KeyError::KeyLengthInvalid => String::from_str("InvalidKeyIvLength"),
            KeyError::DecryptFailure => String::from_str("BlockModeError"),
        }
    }
}

} // verus!
