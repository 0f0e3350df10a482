//! Reading and writing keys in binary and armored form.
use vstd::prelude::*;

use crate::error::{key_error, key_error_of, CryptError};
use crate::form::{detect_form, form_of, looks_armored, Form};
use crate::openpgp::{
    all_supported, public_key_armor_of, public_key_bytes_of, public_key_from_armor,
    public_key_from_bytes, public_key_parsed_from_armor, public_key_parsed_from_bytes,
    public_key_to_armored, public_key_to_bytes, public_primary_version, public_subkey_at,
    public_subkey_count, public_subkey_version, public_subkeys_of, public_versions_supported,
    public_view, public_view_of, secret_key_armor_of, secret_key_bytes_of,
    secret_key_from_armor, secret_key_from_bytes, secret_key_parsed_from_armor,
    secret_key_parsed_from_bytes, secret_key_to_armored, secret_key_to_bytes,
    secret_key_versions, secret_key_versions_of, subkey_version, supported_version,
};

verus! {

/// The result of reading a private key, given what pgp's private-key parser
/// and its public-key parser make of the same input: input that only the
/// public-key parser accepts lacks the private material.
pub open spec fn private_read(
    parsed: Result<pgp::SignedSecretKey, u32>,
    as_public: Result<pgp::SignedPublicKey, u32>,
) -> Result<pgp::SignedSecretKey, CryptError> {
    match parsed {
        Ok(k) => Ok(k),
        Err(c) => if as_public is Ok {
            Err(CryptError::MissingPrivateMaterial)
        } else {
            Err(key_error_of(c))
        },
    }
}

/// The result of reading a public key, given what pgp's public-key parser
/// and its private-key parser make of the same input: input that the
/// private-key parser accepts holds private material and is refused.
pub open spec fn public_read(
    parsed: Result<pgp::SignedPublicKey, u32>,
    as_secret: Result<pgp::SignedSecretKey, u32>,
) -> Result<pgp::SignedPublicKey, CryptError> {
    if as_secret is Ok {
        Err(CryptError::UnexpectedPrivateMaterial)
    } else {
        match parsed {
            Ok(k) => Ok(k),
            Err(c) => Err(key_error_of(c)),
        }
    }
}

/// Reading a private key from binary bytes.
pub open spec fn private_from_bytes(b: Seq<u8>) -> Result<pgp::SignedSecretKey, CryptError> {
    private_read(secret_key_parsed_from_bytes(b), public_key_parsed_from_bytes(b))
}

/// Reading a private key from armored text.
pub open spec fn private_from_armor(b: Seq<u8>) -> Result<pgp::SignedSecretKey, CryptError> {
    private_read(secret_key_parsed_from_armor(b), public_key_parsed_from_armor(b))
}

/// Reading a public key from binary bytes.
pub open spec fn public_from_bytes(b: Seq<u8>) -> Result<pgp::SignedPublicKey, CryptError> {
    public_read(public_key_parsed_from_bytes(b), secret_key_parsed_from_bytes(b))
}

/// Reading a public key from armored text.
pub open spec fn public_from_armor(b: Seq<u8>) -> Result<pgp::SignedPublicKey, CryptError> {
    public_read(public_key_parsed_from_armor(b), secret_key_parsed_from_armor(b))
}

/// Parses a private key in binary form.
pub fn read_priv_key(data: Vec<u8>) -> (r: Result<pgp::SignedSecretKey, CryptError>)
    ensures
        r == private_from_bytes(data@),
{
    match secret_key_from_bytes(&data) {
        Ok(k) => Ok(k),
        Err(c) => match public_key_from_bytes(&data) {
            Ok(_) => Err(CryptError::MissingPrivateMaterial),
            Err(_) => Err(key_error(c)),
        },
    }
}

/// Parses a private key in armored form.
pub fn read_armored_priv_key(data: Vec<u8>) -> (r: Result<pgp::SignedSecretKey, CryptError>)
    ensures
        r == private_from_armor(data@),
{
    match secret_key_from_armor(&data) {
        Ok(k) => Ok(k),
        Err(c) => match public_key_from_armor(&data) {
            Ok(_) => Err(CryptError::MissingPrivateMaterial),
            Err(_) => Err(key_error(c)),
        },
    }
}

/// Parses a public key in binary form; bytes holding a private key are
/// refused.
pub fn read_pub_key(data: Vec<u8>) -> (r: Result<pgp::SignedPublicKey, CryptError>)
    ensures
        r == public_from_bytes(data@),
{
    if secret_key_from_bytes(&data).is_ok() {
        return Err(CryptError::UnexpectedPrivateMaterial);
    }
    match public_key_from_bytes(&data) {
        Ok(k) => Ok(k),
        Err(c) => Err(key_error(c)),
    }
}

/// Parses a public key in armored form; text holding a private key is
/// refused.
pub fn read_armored_pub_key(data: Vec<u8>) -> (r: Result<pgp::SignedPublicKey, CryptError>)
    ensures
        r == public_from_armor(data@),
{
    if secret_key_from_armor(&data).is_ok() {
        return Err(CryptError::UnexpectedPrivateMaterial);
    }
    match public_key_from_armor(&data) {
        Ok(k) => Ok(k),
        Err(c) => Err(key_error(c)),
    }
}

/// Parses a private key in whichever form `data` is in.
pub fn decode_secret_key(data: Vec<u8>) -> (r: Result<pgp::SignedSecretKey, CryptError>)
    ensures
        r == (if looks_armored(data@) {
            private_from_armor(data@)
        } else {
            private_from_bytes(data@)
        }),
{
    match detect_form(&data) {
        Form::Armored => read_armored_priv_key(data),
        Form::Binary => read_priv_key(data),
    }
}

/// Parses a public key in whichever form `data` is in.
pub fn decode_public_key(data: Vec<u8>) -> (r: Result<pgp::SignedPublicKey, CryptError>)
    ensures
        r == (if looks_armored(data@) {
            public_from_armor(data@)
        } else {
            public_from_bytes(data@)
        }),
{
    match detect_form(&data) {
        Form::Armored => read_armored_pub_key(data),
        Form::Binary => read_pub_key(data),
    }
}

/// Whether every version number in `vs` is 4 or 6.
pub fn all_supported_versions(vs: &Vec<u8>) -> (r: bool)
    ensures
        r == all_supported(vs@),
{
    let mut i: usize = 0;
    while i < vs.len()
        invariant
            i <= vs@.len(),
            forall|j: int| 0 <= j < i ==> supported_version(#[trigger] vs@[j]),
        decreases vs@.len() - i,
    {
        if vs[i] != 4 && vs[i] != 6 {
            return false;
        }
        i = i + 1;
    }
    true
}

/// Whether the primary key and every subkey of `key` are of version 4 or 6.
pub fn public_key_supported(key: &pgp::SignedPublicKey) -> (r: bool)
    ensures
        r == public_versions_supported(*key),
{
    let v = public_primary_version(key);
    if v != 4 && v != 6 {
        return false;
    }
    let n = public_subkey_count(key);
    let mut i: usize = 0;
    while i < n
        invariant
            i <= n,
            n == public_subkeys_of(*key).len(),
            supported_version(v),
            v == crate::openpgp::primary_version(*key),
            forall|j: int|
                0 <= j < i ==> supported_version(
                    #[trigger] subkey_version(public_subkeys_of(*key)[j]),
                ),
        decreases n - i,
    {
        let sv = public_subkey_version(public_subkey_at(key, i));
        if sv != 4 && sv != 6 {
            return false;
        }
        i = i + 1;
    }
    true
}

/// What pgp writes for a private key in a form.
pub open spec fn secret_key_encoding(k: pgp::SignedSecretKey, form: Form) -> Option<Seq<u8>> {
    match form {
        Form::Binary => secret_key_bytes_of(k),
        Form::Armored => secret_key_armor_of(k),
    }
}

/// What pgp writes for a public key in a form.
pub open spec fn public_key_encoding(k: pgp::SignedPublicKey, form: Form) -> Option<Seq<u8>> {
    match form {
        Form::Binary => public_key_bytes_of(k),
        Form::Armored => public_key_armor_of(k),
    }
}

/// Serializes a private key in the requested form; the output is detected
/// as being in that form. Keys of other versions than 4 and 6 are refused.
pub fn encode_secret_key(key: &pgp::SignedSecretKey, form: Form) -> (r: Result<Vec<u8>, CryptError>)
    ensures
        !all_supported(secret_key_versions_of(*key)) ==> r == Err::<Vec<u8>, CryptError>(
            CryptError::UnsupportedKeyVersion,
        ),
        all_supported(secret_key_versions_of(*key)) ==> match secret_key_encoding(*key, form) {
            Some(s) => r matches Ok(b) && b@ == s,
            None => r == Err::<Vec<u8>, CryptError>(CryptError::SerializationFailure),
        },
        r matches Ok(b) ==> form_of(b@) == form,
{
    if !all_supported_versions(&secret_key_versions(key)) {
        return Err(CryptError::UnsupportedKeyVersion);
    }
    let out = match form {
        Form::Binary => secret_key_to_bytes(key),
        Form::Armored => secret_key_to_armored(key),
    };
    match out {
        Some(b) => Ok(b),
        None => Err(CryptError::SerializationFailure),
    }
}

/// Serializes a public key in the requested form; the output is detected
/// as being in that form. Keys of other versions than 4 and 6 are refused.
pub fn encode_public_key(key: &pgp::SignedPublicKey, form: Form) -> (r: Result<Vec<u8>, CryptError>)
    ensures
        !public_versions_supported(*key) ==> r == Err::<Vec<u8>, CryptError>(
            CryptError::UnsupportedKeyVersion,
        ),
        public_versions_supported(*key) ==> match public_key_encoding(*key, form) {
            Some(s) => r matches Ok(b) && b@ == s,
            None => r == Err::<Vec<u8>, CryptError>(CryptError::SerializationFailure),
        },
        r matches Ok(b) ==> form_of(b@) == form,
{
    if !public_key_supported(key) {
        return Err(CryptError::UnsupportedKeyVersion);
    }
    let out = match form {
        Form::Binary => public_key_to_bytes(key),
        Form::Armored => public_key_to_armored(key),
    };
    match out {
        Some(b) => Ok(b),
        None => Err(CryptError::SerializationFailure),
    }
}

/// The public view of an identity: the same keys without their private
/// material.
pub fn public_key_of(key: &pgp::SignedSecretKey) -> (r: pgp::SignedPublicKey)
    ensures
        r == public_view_of(*key),
{
    public_view(key)
}

} // verus!
