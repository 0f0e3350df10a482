//! Failure kinds, and how failures reported by `pgp` map onto them.
use vstd::prelude::*;

verus! {

/// Every way an operation of this library can fail.
#[derive(Clone, Copy, Debug, PartialEq, Eq, Structural)]
pub enum CryptError {
    /// The buffer does not hold a well-formed key.
    MalformedKey,
    /// A private key was asked for, but the buffer holds a public key only.
    MissingPrivateMaterial,
    /// A public key was asked for, but the buffer holds private key material.
    UnexpectedPrivateMaterial,
    /// A key of a version other than 4 or 6, for which no key id is defined
    /// here.
    UnsupportedKeyVersion,
    /// Armor header, footer, base64 body or checksum is broken.
    CorruptArmor,
    /// The binary stream ends in the middle of a structure.
    TruncatedInput,
    /// Neither the primary key nor any subkey can encrypt.
    NoEncryptionKey,
    /// Wrapping the session key or encrypting the payload failed.
    CipherFailure,
    /// The result could not be serialized.
    SerializationFailure,
    /// None of the caller's keys is a recipient of the envelope.
    NoMatchingKey,
    /// The payload's integrity check failed: it was tampered with or damaged.
    IntegrityCheckFailed,
    /// The envelope is structurally invalid.
    CorruptEnvelope,
    /// The key generation settings break the generation policy.
    InvalidKeyConfig,
    /// The key material could not be generated or self-certified.
    GenerationFailed,
}

/// Code of `pgp::errors::Error::Incomplete`.
pub const PGP_INCOMPLETE: u32 = 2;

/// Code of `pgp::errors::Error::InvalidArmorWrappers`.
pub const PGP_INVALID_ARMOR_WRAPPERS: u32 = 3;

/// Code of `pgp::errors::Error::InvalidChecksum`.
pub const PGP_INVALID_CHECKSUM: u32 = 4;

/// Code of `pgp::errors::Error::Base64DecodeError`.
pub const PGP_BASE64_DECODE: u32 = 5;

/// Code of `pgp::errors::Error::MissingKey`.
pub const PGP_MISSING_KEY: u32 = 14;

/// Code of `pgp::errors::Error::PacketIncomplete`.
pub const PGP_PACKET_INCOMPLETE: u32 = 20;

/// Code of `pgp::errors::Error::MdcError`.
pub const PGP_MDC_ERROR: u32 = 27;

/// Whether a `pgp` error code reports broken armor.
pub open spec fn is_armor_code(code: u32) -> bool {
    code == PGP_INVALID_ARMOR_WRAPPERS || code == PGP_INVALID_CHECKSUM || code == PGP_BASE64_DECODE
}

/// Whether a `pgp` error code reports input that ended too early.
pub open spec fn is_truncation_code(code: u32) -> bool {
    code == PGP_INCOMPLETE || code == PGP_PACKET_INCOMPLETE
}

/// The failure reported when a key cannot be parsed.
pub open spec fn key_error_of(code: u32) -> CryptError {
    if is_armor_code(code) {
        CryptError::CorruptArmor
    } else if is_truncation_code(code) {
        CryptError::TruncatedInput
    } else {
        CryptError::MalformedKey
    }
}

/// The failure reported when an envelope cannot be parsed.
pub open spec fn envelope_error_of(code: u32) -> CryptError {
    if is_armor_code(code) {
        CryptError::CorruptArmor
    } else if is_truncation_code(code) {
        CryptError::TruncatedInput
    } else {
        CryptError::CorruptEnvelope
    }
}

/// The failure reported when a parsed envelope cannot be opened.
pub open spec fn decryption_error_of(code: u32) -> CryptError {
    if code == PGP_MISSING_KEY {
        CryptError::NoMatchingKey
    } else if code == PGP_MDC_ERROR {
        CryptError::IntegrityCheckFailed
    } else {
        CryptError::CorruptEnvelope
    }
}

/// The failures that reading a key can report.
pub open spec fn is_key_failure(e: CryptError) -> bool {
    e == CryptError::MalformedKey || e == CryptError::CorruptArmor || e == CryptError::TruncatedInput
        || e == CryptError::MissingPrivateMaterial || e == CryptError::UnexpectedPrivateMaterial
}

/// The failures that opening an envelope can report.
pub open spec fn is_decryption_failure(e: CryptError) -> bool {
    e == CryptError::CorruptArmor || e == CryptError::TruncatedInput || e
        == CryptError::CorruptEnvelope || e == CryptError::NoMatchingKey || e
        == CryptError::IntegrityCheckFailed || e == CryptError::UnsupportedKeyVersion
}

fn is_armor_failure(code: u32) -> (r: bool)
    ensures
        r == is_armor_code(code),
{
    code == PGP_INVALID_ARMOR_WRAPPERS || code == PGP_INVALID_CHECKSUM || code == PGP_BASE64_DECODE
}

fn is_truncation_failure(code: u32) -> (r: bool)
    ensures
        r == is_truncation_code(code),
{
    code == PGP_INCOMPLETE || code == PGP_PACKET_INCOMPLETE
}

/// Classifies a `pgp` error code met while parsing a key.
pub fn key_error(code: u32) -> (e: CryptError)
    ensures
        e == key_error_of(code),
        is_key_failure(e),
{
    if is_armor_failure(code) {
        CryptError::CorruptArmor
    } else if is_truncation_failure(code) {
        CryptError::TruncatedInput
    } else {
        CryptError::MalformedKey
    }
}

/// Classifies a `pgp` error code met while parsing an envelope.
pub fn envelope_error(code: u32) -> (e: CryptError)
    ensures
        e == envelope_error_of(code),
        is_decryption_failure(e),
{
    if is_armor_failure(code) {
        CryptError::CorruptArmor
    } else if is_truncation_failure(code) {
        CryptError::TruncatedInput
    } else {
        CryptError::CorruptEnvelope
    }
}

/// Classifies a `pgp` error code met while opening a parsed envelope: a
/// missing recipient key and a failed integrity check are kept apart from
/// every other failure.
pub fn decryption_error(code: u32) -> (e: CryptError)
    ensures
        e == decryption_error_of(code),
        is_decryption_failure(e),
        e == CryptError::NoMatchingKey <==> code == PGP_MISSING_KEY,
        e == CryptError::IntegrityCheckFailed <==> code == PGP_MDC_ERROR,
{
    if code == PGP_MISSING_KEY {
        CryptError::NoMatchingKey
    } else if code == PGP_MDC_ERROR {
        CryptError::IntegrityCheckFailed
    } else {
        CryptError::CorruptEnvelope
    }
}

} // verus!
