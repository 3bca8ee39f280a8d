use vstd::prelude::*;
use crate::types::primitive::Integer;

verus! {

/// A file uploaded to Telegram Passport
///
/// Currently all Telegram Passport files are in JPEG format when decrypted and don’t exceed 10MB
#[derive(Clone, Debug)]
pub struct PassportFile {
    /// Unique identifier for this file
    pub file_id: String,
    /// Unique identifier for this file,
    /// which is supposed to be the same over time and for different bots
    pub file_unique_id: String,
    /// File size
    pub file_size: Integer,
    /// Unix time when the file was uploaded
    pub file_date: Integer,
}

/// Data required for decrypting and authenticating EncryptedPassportElement
///
/// See the Telegram Passport Documentation for a complete description
/// of the data decryption and authentication processes
#[derive(Clone, Debug)]
pub struct EncryptedCredentials {
    /// Base64-encoded encrypted JSON-serialized data with unique user payload,
    /// data hashes and secrets required for EncryptedPassportElement decryption and authentication
    pub data: String,
    /// Base64-encoded data hash for data authentication
    pub hash: String,
    /// Base64-encoded secret, encrypted with the bot’s public RSA key,
    /// required for data decryption
    pub secret: String,
}

} // verus!
