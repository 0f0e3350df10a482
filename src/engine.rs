//! Encrypting a payload to a public key, and decrypting it with the private key.
use vstd::prelude::*;

use crate::codec::all_supported_versions;
use crate::error::{
    decryption_error, decryption_error_of, envelope_error, envelope_error_of,
    is_decryption_failure, CryptError, PGP_MDC_ERROR, PGP_MISSING_KEY,
};
use crate::form::{detect_form, form_of, looks_armored, Form};
use crate::openpgp::{
    all_supported, content_of, decrypt_message, decrypted_with, encrypt_to_primary,
    encrypt_to_subkey, literal_message, message_content, message_from_armor, message_from_bytes,
    message_parsed_from_armor, message_parsed_from_bytes, message_to_armored, message_to_bytes,
    message_armor_of, message_bytes_of, primary_key_id, primary_version, public_subkeys_of,
    secret_key_versions, secret_key_versions_of, session_key_packets, session_key_packets_of,
    subkey_key_id, subkey_version, supported_version,
};
use crate::select::{encryption_slot, get_encryption_key, KeySlot, SignedPublicKeyOrSubkey};

verus! {

/// The session cipher: AES-256 in the OpenPGP registry of symmetric algorithms.
pub const SESSION_CIPHER: u8 = 9;

/// The failures that encryption can report.
pub open spec fn is_encryption_failure(e: CryptError) -> bool {
    e == CryptError::NoEncryptionKey || e == CryptError::UnsupportedKeyVersion || e
        == CryptError::CipherFailure || e == CryptError::SerializationFailure
}

/// The version of the key that the selector picks within `k`.
pub open spec fn selected_version(k: pgp::SignedPublicKey) -> u8 {
    match encryption_slot(k) {
        Some(KeySlot::Subkey(i)) => subkey_version(public_subkeys_of(k)[i as int]),
        _ => primary_version(k),
    }
}

/// The key id of the key that the selector picks within `k`.
pub open spec fn selected_key_id(k: pgp::SignedPublicKey) -> Seq<u8> {
    match encryption_slot(k) {
        Some(KeySlot::Subkey(i)) => subkey_key_id(public_subkeys_of(k)[i as int]),
        _ => primary_key_id(k),
    }
}

/// What pgp writes for a message in a form.
pub open spec fn message_encoding(m: pgp::Message, form: Form) -> Option<Seq<u8>> {
    match form {
        Form::Binary => message_bytes_of(m),
        Form::Armored => message_armor_of(m),
    }
}

/// Whether `b` is an envelope written in `form` whose sole session-key
/// packet names the key id `id`.
pub open spec fn addressed_to(b: Seq<u8>, form: Form, id: Seq<u8>) -> bool {
    exists|m: pgp::Message|
        #[trigger] message_encoding(m, form) == Some(b) && session_key_packets_of(m) == seq![
            Some(id),
        ]
}

/// Encrypts `data` to the key that the selector picks within `key`, and
/// serializes the envelope in `form`. Fails with `NoEncryptionKey` exactly
/// when the selector picks nothing, and with `UnsupportedKeyVersion` exactly
/// when it picks a key of another version than 4 or 6; otherwise only pgp's
/// encryption or serialization can fail. The envelope is addressed to the
/// selected key alone.
pub fn encrypt(key: &pgp::SignedPublicKey, data: &Vec<u8>, form: Form) -> (r: Result<Vec<u8>, CryptError>)
    ensures
        r matches Ok(b) ==> addressed_to(b@, form, selected_key_id(*key)),
        r == Err::<Vec<u8>, CryptError>(CryptError::NoEncryptionKey) <==> encryption_slot(*key) is None,
        r == Err::<Vec<u8>, CryptError>(CryptError::UnsupportedKeyVersion) <==> (encryption_slot(*key) is Some
            && !supported_version(selected_version(*key))),
        r matches Err(e) ==> is_encryption_failure(e),
        r matches Ok(b) ==> form_of(b@) == form,
{
    let target = match get_encryption_key(key) {
        Some(t) => t,
        None => return Err(CryptError::NoEncryptionKey),
    };
    let v = target.version();
    if v != 4 && v != 6 {
        return Err(CryptError::UnsupportedKeyVersion);
    }
    let msg = literal_message(data);
    let sealed = match target {
        SignedPublicKeyOrSubkey::Key(k) => encrypt_to_primary(&msg, k, SESSION_CIPHER),
        SignedPublicKeyOrSubkey::SubKey(s) => encrypt_to_subkey(&msg, s, SESSION_CIPHER),
    };
    let sealed = match sealed {
        Ok(m) => m,
        Err(_) => return Err(CryptError::CipherFailure),
    };
    assert(target.spec_key_id() == selected_key_id(*key));
    let out = match form {
        Form::Binary => message_to_bytes(&sealed),
        Form::Armored => message_to_armored(&sealed),
    };
    match out {
        Some(b) => {
            assert(message_encoding(sealed, form) == Some(b@));
            Ok(b)
        },
        None => Err(CryptError::SerializationFailure),
    }
}

/// Encrypts `data` to `key` and returns the envelope in binary form.
pub fn encrypt_to_binary(key: pgp::SignedPublicKey, data: Vec<u8>) -> (r: Result<Vec<u8>, CryptError>)
    ensures
        r == Err::<Vec<u8>, CryptError>(CryptError::NoEncryptionKey) <==> encryption_slot(key) is None,
        r == Err::<Vec<u8>, CryptError>(CryptError::UnsupportedKeyVersion) <==> (encryption_slot(key) is Some
            && !supported_version(selected_version(key))),
        r matches Err(e) ==> is_encryption_failure(e),
        r matches Ok(b) ==> form_of(b@) == Form::Binary,
        r matches Ok(b) ==> addressed_to(b@, Form::Binary, selected_key_id(key)),
{
    encrypt(&key, &data, Form::Binary)
}

/// Encrypts `data` to `key` and returns the envelope in armored form.
pub fn encrypt_to_armored(key: pgp::SignedPublicKey, data: Vec<u8>) -> (r: Result<Vec<u8>, CryptError>)
    ensures
        r == Err::<Vec<u8>, CryptError>(CryptError::NoEncryptionKey) <==> encryption_slot(key) is None,
        r == Err::<Vec<u8>, CryptError>(CryptError::UnsupportedKeyVersion) <==> (encryption_slot(key) is Some
            && !supported_version(selected_version(key))),
        r matches Err(e) ==> is_encryption_failure(e),
        r matches Ok(b) ==> form_of(b@) == Form::Armored,
        r matches Ok(b) ==> addressed_to(b@, Form::Armored, selected_key_id(key)),
{
    encrypt(&key, &data, Form::Armored)
}

/// What pgp makes of an envelope, in the form it is detected in.
pub open spec fn parsed_envelope(b: Seq<u8>) -> Result<pgp::Message, u32> {
    if looks_armored(b) {
        message_parsed_from_armor(b)
    } else {
        message_parsed_from_bytes(b)
    }
}

/// The payload of an opened envelope, given what pgp reads out of it.
pub open spec fn payload_of(c: Result<Option<Seq<u8>>, u32>) -> Result<Seq<u8>, CryptError> {
    match c {
        Ok(Some(p)) => Ok(p),
        Ok(None) => Err(CryptError::CorruptEnvelope),
        Err(code) => Err(envelope_error_of(code)),
    }
}

/// The result of decrypting `b` with `k`: a key of an unsupported version is
/// refused, then a parse failure is classified by `envelope_error_of`, an
/// envelope without session-key packets is corrupt, a failure to open the envelope by `decryption_error_of`, and the payload is
/// the literal data inside.
pub open spec fn decryption_of(k: pgp::SignedSecretKey, b: Seq<u8>) -> Result<Seq<u8>, CryptError> {
    if !all_supported(secret_key_versions_of(k)) {
        Err(CryptError::UnsupportedKeyVersion)
    } else {
        match parsed_envelope(b) {
            Err(c) => Err(envelope_error_of(c)),
            Ok(m) => if session_key_packets_of(m).len() == 0 {
                Err(CryptError::CorruptEnvelope)
            } else {
                match decrypted_with(m, k) {
                    Err(c) => Err(decryption_error_of(c)),
                    Ok(d) => payload_of(content_of(d)),
                }
            },
        }
    }
}

/// The bytes of a result, as a sequence.
pub open spec fn result_view(r: Result<Vec<u8>, CryptError>) -> Result<Seq<u8>, CryptError> {
    match r {
        Ok(b) => Ok(b@),
        Err(e) => Err(e),
    }
}

/// Turns what pgp reads out of an opened envelope into the payload: an
/// envelope without literal data is corrupt.
pub fn payload(c: Result<Option<Vec<u8>>, u32>) -> (r: Result<Vec<u8>, CryptError>)
    ensures
        result_view(r) == payload_of(
            match c {
                Ok(Some(b)) => Ok(Some(b@)),
                Ok(None) => Ok(None),
                Err(code) => Err(code),
            },
        ),
{
    match c {
        Ok(Some(b)) => Ok(b),
        Ok(None) => Err(CryptError::CorruptEnvelope),
        Err(code) => Err(envelope_error(code)),
    }
}

/// Parses an envelope in whichever form it is in and opens it with `key`.
pub fn decrypt(key: &pgp::SignedSecretKey, encrypted: &Vec<u8>) -> (r: Result<Vec<u8>, CryptError>)
    ensures
        result_view(r) == decryption_of(*key, encrypted@),
        r matches Err(e) ==> is_decryption_failure(e),
{
    if !all_supported_versions(&secret_key_versions(key)) {
        return Err(CryptError::UnsupportedKeyVersion);
    }
    let parsed = match detect_form(encrypted) {
        Form::Armored => message_from_armor(encrypted),
        Form::Binary => message_from_bytes(encrypted),
    };
    let msg = match parsed {
        Ok(m) => m,
        Err(c) => return Err(envelope_error(c)),
    };
    if session_key_packets(&msg).len() == 0 {
        return Err(CryptError::CorruptEnvelope);
    }
    let opened = match decrypt_message(&msg, key) {
        Ok(m) => m,
        Err(c) => return Err(decryption_error(c)),
    };
    let content = message_content(&opened);
    let r = payload(content);
    proof {
        assert(match content_of(opened) {
            Ok(Some(p)) => content matches Ok(Some(b)) && b@ == p,
            Ok(None) => content matches Ok(None),
            Err(c) => content matches Err(d) && d == c,
        });
    }
    r
}

/// Decrypts an envelope, binary or armored, with the private key `key`.
pub fn decrypt_from_binary(key: pgp::SignedSecretKey, encrypted: Vec<u8>) -> (r: Result<Vec<u8>, CryptError>)
    ensures
        result_view(r) == decryption_of(key, encrypted@),
        r matches Err(e) ==> is_decryption_failure(e),
{
    decrypt(&key, &encrypted)
}

/// Decryption is a function of its inputs: two results that both meet the
/// contract of `decrypt` on the same key and bytes hold the same payload or
/// the same failure.
pub proof fn lemma_decryption_deterministic(
    k: pgp::SignedSecretKey,
    b: Seq<u8>,
    r1: Result<Vec<u8>, CryptError>,
    r2: Result<Vec<u8>, CryptError>,
)
    requires
        result_view(r1) == decryption_of(k, b),
        result_view(r2) == decryption_of(k, b),
    ensures
        result_view(r1) == result_view(r2),
        r1 is Err ==> r1 == r2,
{
}

/// How `decrypt` reports a parsed envelope that it cannot open: one without
/// session-key packets is corrupt; otherwise pgp's missing-key failure, and
/// only it, gives `NoMatchingKey`, and its integrity failure, and only it,
/// gives `IntegrityCheckFailed`. None of these gives a payload.
pub proof fn lemma_decryption_failures(k: pgp::SignedSecretKey, b: Seq<u8>, m: pgp::Message)
    requires
        all_supported(secret_key_versions_of(k)),
        parsed_envelope(b) == Ok::<pgp::Message, u32>(m),
    ensures
        session_key_packets_of(m).len() == 0 ==> decryption_of(k, b) == Err::<Seq<u8>, CryptError>(
            CryptError::CorruptEnvelope,
        ),
        session_key_packets_of(m).len() > 0 ==> (decryption_of(k, b) == Err::<Seq<u8>, CryptError>(
            CryptError::NoMatchingKey,
        ) <==> decrypted_with(m, k) == Err::<pgp::Message, u32>(PGP_MISSING_KEY)),
        session_key_packets_of(m).len() > 0 ==> (decryption_of(k, b) == Err::<Seq<u8>, CryptError>(
            CryptError::IntegrityCheckFailed,
        ) <==> decrypted_with(m, k) == Err::<pgp::Message, u32>(PGP_MDC_ERROR)),
{
}


} // verus!
