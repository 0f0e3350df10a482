//! Generating a fresh identity: a certifying and signing primary key bound
//! to one encryption subkey.
use vstd::prelude::*;
use vstd::string::*;

use crate::error::CryptError;
use crate::openpgp::{generate_secret_key, secret_key_params, self_certify, subkey_params};

verus! {

/// The public-key algorithms that key generation offers.
#[derive(Clone, Copy, Debug, PartialEq, Eq, Structural)]
pub enum KeyAlgorithm {
    /// Ed25519 signatures.
    Ed25519,
    /// X25519 key agreement, for encryption.
    X25519,
}

/// The capabilities granted to one key.
#[derive(Clone, Copy, Debug, PartialEq, Eq, Structural)]
pub struct KeyRoles {
    pub can_certify: bool,
    pub can_sign: bool,
    pub can_encrypt: bool,
}

/// The algorithm and capabilities of one subkey to generate.
#[derive(Clone, Copy, Debug, PartialEq, Eq, Structural)]
pub struct SubkeySpec {
    pub algorithm: KeyAlgorithm,
    pub roles: KeyRoles,
}

/// Everything key generation needs to know.
#[derive(Clone, Debug)]
pub struct KeyGenConfig {
    /// The identity string bound to the primary key, as in `Name <email>`.
    pub user_id: String,
    pub primary_algorithm: KeyAlgorithm,
    pub primary_roles: KeyRoles,
    /// The subkeys, in the order in which they are bound.
    pub subkeys: Vec<SubkeySpec>,
    /// Preferred symmetric algorithm, as numbered in the OpenPGP registry.
    pub preferred_symmetric: u8,
    /// Preferred hash algorithm, as numbered in the OpenPGP registry.
    pub preferred_hash: u8,
    /// Preferred compression algorithm, as numbered in the OpenPGP registry.
    pub preferred_compression: u8,
}

/// AES-256 in the OpenPGP registry of symmetric algorithms.
pub const AES256: u8 = 9;

/// SHA2-256 in the OpenPGP registry of hash algorithms.
pub const SHA2_256: u8 = 8;

/// ZLIB in the OpenPGP registry of compression algorithms.
pub const ZLIB: u8 = 2;

/// Whether an algorithm makes signatures.
pub open spec fn signs(a: KeyAlgorithm) -> bool {
    a == KeyAlgorithm::Ed25519
}

/// Whether an algorithm can receive encrypted session keys.
pub open spec fn encrypts(a: KeyAlgorithm) -> bool {
    a == KeyAlgorithm::X25519
}

/// Whether every capability in `r` is one that `a` can carry.
pub open spec fn roles_fit(a: KeyAlgorithm, r: KeyRoles) -> bool {
    &&& (r.can_certify || r.can_sign) ==> signs(a)
    &&& r.can_encrypt ==> encrypts(a)
}

/// Whether a subkey specification may be generated: it fits its algorithm
/// and never certifies, which is the primary key's task alone.
pub open spec fn subkey_ok(s: SubkeySpec) -> bool {
    roles_fit(s.algorithm, s.roles) && !s.roles.can_certify
}

/// The generation policy: a non-empty identity string, a primary key that
/// certifies and signs, and at least one subkey, each of them well formed.
pub open spec fn config_ok(c: KeyGenConfig) -> bool {
    &&& c.user_id@.len() > 0
    &&& c.primary_roles.can_certify
    &&& c.primary_roles.can_sign
    &&& roles_fit(c.primary_algorithm, c.primary_roles)
    &&& c.subkeys@.len() > 0
    &&& forall|i: int| 0 <= i < c.subkeys@.len() ==> subkey_ok(#[trigger] c.subkeys@[i])
}

/// The identity string for a display name and an email address.
pub open spec fn user_id_of(name: Seq<char>, email: Seq<char>) -> Seq<char> {
    name + " <"@ + email + ">"@
}

/// The default configuration: an Ed25519 primary key that certifies and
/// signs but does not encrypt, and one X25519 subkey that only encrypts.
pub open spec fn is_default_config(c: KeyGenConfig, name: Seq<char>, email: Seq<char>) -> bool {
    &&& c.user_id@ == user_id_of(name, email)
    &&& c.primary_algorithm == KeyAlgorithm::Ed25519
    &&& c.primary_roles == KeyRoles { can_certify: true, can_sign: true, can_encrypt: false }
    &&& c.subkeys@ == seq![
        SubkeySpec {
            algorithm: KeyAlgorithm::X25519,
            roles: KeyRoles { can_certify: false, can_sign: false, can_encrypt: true },
        },
    ]
    &&& c.preferred_symmetric == AES256
    &&& c.preferred_hash == SHA2_256
    &&& c.preferred_compression == ZLIB
}

/// Builds the identity string `name <email>`.
pub fn user_id(name: &str, email: &str) -> (r: String)
    ensures
        r@ == user_id_of(name@, email@),
{
    let mut s = String::from_str(name);
    s.append(" <");
    s.append(email);
    s.append(">");
    s
}

/// The default configuration for `name` and `email`.
pub fn default_key_config(name: &str, email: &str) -> (c: KeyGenConfig)
    ensures
        is_default_config(c, name@, email@),
        config_ok(c),
{
    let sub = SubkeySpec {
        algorithm: KeyAlgorithm::X25519,
        roles: KeyRoles { can_certify: false, can_sign: false, can_encrypt: true },
    };
    let c = KeyGenConfig {
        user_id: user_id(name, email),
        primary_algorithm: KeyAlgorithm::Ed25519,
        primary_roles: KeyRoles { can_certify: true, can_sign: true, can_encrypt: false },
        subkeys: vec![sub],
        preferred_symmetric: AES256,
        preferred_hash: SHA2_256,
        preferred_compression: ZLIB,
    };
    proof {
        assert(c.subkeys@ =~= seq![sub]);
        lemma_default_roles_separated(c, name@, email@);
    }
    c
}

/// The default configuration keeps signing and encryption apart: its
/// primary key signs and does not encrypt, its sole subkey encrypts and does
/// not sign, and it meets the generation policy.
pub proof fn lemma_default_roles_separated(c: KeyGenConfig, name: Seq<char>, email: Seq<char>)
    requires
        is_default_config(c, name, email),
    ensures
        c.primary_roles.can_sign,
        !c.primary_roles.can_encrypt,
        c.subkeys@.len() == 1,
        c.subkeys@[0].roles.can_encrypt,
        !c.subkeys@[0].roles.can_sign,
        config_ok(c),
{
    reveal_strlit(" <");
    reveal_strlit(">");
    assert(user_id_of(name, email).len() == name.len() + 2 + email.len() + 1);
}

fn algorithm_signs(a: KeyAlgorithm) -> (r: bool)
    ensures
        r == signs(a),
{
    match a {
        KeyAlgorithm::Ed25519 => true,
        KeyAlgorithm::X25519 => false,
    }
}

fn algorithm_encrypts(a: KeyAlgorithm) -> (r: bool)
    ensures
        r == encrypts(a),
{
    match a {
        KeyAlgorithm::Ed25519 => false,
        KeyAlgorithm::X25519 => true,
    }
}

fn roles_fit_algorithm(a: KeyAlgorithm, r: KeyRoles) -> (b: bool)
    ensures
        b == roles_fit(a, r),
{
    (!(r.can_certify || r.can_sign) || algorithm_signs(a)) && (!r.can_encrypt || algorithm_encrypts(a))
}

/// Checks a configuration against the generation policy in one pass.
pub fn validate_config(c: &KeyGenConfig) -> (r: bool)
    ensures
        r == config_ok(*c),
{
    if c.user_id.as_str().is_empty() || !c.primary_roles.can_certify || !c.primary_roles.can_sign
        || !roles_fit_algorithm(c.primary_algorithm, c.primary_roles) || c.subkeys.len() == 0 {
        return false;
    }
    let mut i: usize = 0;
    while i < c.subkeys.len()
        invariant
            i <= c.subkeys@.len(),
            forall|j: int| 0 <= j < i ==> subkey_ok(#[trigger] c.subkeys@[j]),
        decreases c.subkeys@.len() - i,
    {
        let s = c.subkeys[i];
        if s.roles.can_certify || !roles_fit_algorithm(s.algorithm, s.roles) {
            return false;
        }
        i = i + 1;
    }
    true
}

/// Generates and self-certifies an identity from `config`. Fails with
/// `InvalidKeyConfig` exactly when the configuration breaks the generation
/// policy, and with `GenerationFailed` when the key material cannot be made
/// or signed.
pub fn generate_key(config: &KeyGenConfig) -> (r: Result<pgp::SignedSecretKey, CryptError>)
    ensures
        r == Err::<pgp::SignedSecretKey, CryptError>(CryptError::InvalidKeyConfig) <==> !config_ok(*config),
        r matches Err(e) ==> e == CryptError::InvalidKeyConfig || e == CryptError::GenerationFailed,
{
    if !validate_config(config) {
        return Err(CryptError::InvalidKeyConfig);
    }
    let mut subkeys: Vec<pgp::SubkeyParams> = Vec::new();
    let mut i: usize = 0;
    while i < config.subkeys.len()
        invariant
            i <= config.subkeys@.len(),
            config_ok(*config),
        decreases config.subkeys@.len() - i,
    {
        let s = config.subkeys[i];
        match subkey_params(s.algorithm, s.roles) {
            Some(p) => subkeys.push(p),
            None => return Err(CryptError::GenerationFailed),
        }
        i = i + 1;
    }
    let params = match secret_key_params(config, subkeys) {
        Some(p) => p,
        None => return Err(CryptError::GenerationFailed),
    };
    let unsigned = match generate_secret_key(params) {
        Ok(k) => k,
        Err(_) => return Err(CryptError::GenerationFailed),
    };
    match self_certify(unsigned) {
        Ok(k) => Ok(k),
        Err(_) => Err(CryptError::GenerationFailed),
    }
}

/// Generates a fresh identity for `name` and `email` under the default
/// configuration.
pub fn gen_key(name: &str, email: &str) -> (r: Result<pgp::SignedSecretKey, CryptError>)
    ensures
        r matches Err(e) ==> e == CryptError::GenerationFailed,
{
    let config = default_key_config(name, email);
    generate_key(&config)
}

} // verus!
