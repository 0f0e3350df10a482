//! The boundary to the `pgp` crate: its types, and one small function per
//! call that the library makes into it.
use pgp::ser::Serialize;
use pgp::types::PublicKeyTrait;
use pgp::Deserializable;

use smallvec::SmallVec;

use crate::form::looks_armored;
use crate::generate::{KeyAlgorithm, KeyGenConfig, KeyRoles};
use vstd::prelude::*;

verus! {

#[verifier::external_type_specification]
#[verifier::external_body]
pub struct ExSignedPublicKey(pgp::SignedPublicKey);

#[verifier::external_type_specification]
#[verifier::external_body]
pub struct ExSignedPublicSubKey(pgp::SignedPublicSubKey);

/// Whether the primary key of a public key is able to encrypt.
pub uninterp spec fn primary_encrypts(k: pgp::SignedPublicKey) -> bool;

/// The subkeys bound to a public key, in their stored order.
pub uninterp spec fn public_subkeys_of(k: pgp::SignedPublicKey) -> Seq<pgp::SignedPublicSubKey>;

/// Whether a subkey is able to encrypt.
pub uninterp spec fn subkey_encrypts(s: pgp::SignedPublicSubKey) -> bool;

/// Relies on `PublicKeyTrait::is_encryption_key` for `SignedPublicKey`: a
/// function of the key's algorithm alone.
#[verifier::external_body]
pub(crate) fn public_primary_encrypts(k: &pgp::SignedPublicKey) -> (r: bool)
    ensures
        r == primary_encrypts(*k),
{
    k.is_encryption_key()
}

/// Relies on the `public_subkeys` field of `SignedPublicKey`: its length.
#[verifier::external_body]
pub(crate) fn public_subkey_count(k: &pgp::SignedPublicKey) -> (r: usize)
    ensures
        r == public_subkeys_of(*k).len(),
{
    k.public_subkeys.len()
}

/// Relies on the `public_subkeys` field of `SignedPublicKey`: indexing it.
#[verifier::external_body]
pub(crate) fn public_subkey_at(k: &pgp::SignedPublicKey, i: usize) -> (r: &pgp::SignedPublicSubKey)
    requires
        i < public_subkeys_of(*k).len(),
    ensures
        *r == public_subkeys_of(*k)[i as int],
{
    &k.public_subkeys[i]
}

/// Relies on `PublicKeyTrait::is_encryption_key` for `SignedPublicSubKey`: a
/// function of the subkey's algorithm alone.
#[verifier::external_body]
pub(crate) fn public_subkey_encrypts(s: &pgp::SignedPublicSubKey) -> (r: bool)
    ensures
        r == subkey_encrypts(*s),
{
    s.is_encryption_key()
}


/// The version number of the primary key of a public key.
pub uninterp spec fn primary_version(k: pgp::SignedPublicKey) -> u8;

/// The version number of a subkey.
pub uninterp spec fn subkey_version(s: pgp::SignedPublicSubKey) -> u8;

/// Relies on `PublicKeyTrait::version` for `SignedPublicKey`, as its number.
#[verifier::external_body]
pub(crate) fn public_primary_version(k: &pgp::SignedPublicKey) -> (r: u8)
    ensures
        r == primary_version(*k),
{
    k.version().into()
}

/// Relies on `PublicKeyTrait::version` for `SignedPublicSubKey`, as its number.
#[verifier::external_body]
pub(crate) fn public_subkey_version(s: &pgp::SignedPublicSubKey) -> (r: u8)
    ensures
        r == subkey_version(*s),
{
    s.version().into()
}

/// The key id of the primary key of a public key.
pub uninterp spec fn primary_key_id(k: pgp::SignedPublicKey) -> Seq<u8>;

/// The key id of a subkey.
pub uninterp spec fn subkey_key_id(s: pgp::SignedPublicSubKey) -> Seq<u8>;

/// Relies on `PublicKeyTrait::key_id` for `SignedPublicKey`: eight bytes
/// derived from the primary key's public material. It panics on keys of
/// versions other than 4 and 6.
#[verifier::external_body]
pub(crate) fn public_primary_key_id(k: &pgp::SignedPublicKey) -> (r: Vec<u8>)
    requires
        supported_version(primary_version(*k)),
    ensures
        r@ == primary_key_id(*k),
        r@.len() == 8,
{
    k.key_id().as_ref().to_vec()
}

/// Relies on `PublicKeyTrait::key_id` for `SignedPublicSubKey`: eight bytes
/// derived from the subkey's public material. It panics on keys of versions
/// other than 4 and 6.
#[verifier::external_body]
pub(crate) fn public_subkey_key_id(s: &pgp::SignedPublicSubKey) -> (r: Vec<u8>)
    requires
        supported_version(subkey_version(*s)),
    ensures
        r@ == subkey_key_id(*s),
        r@.len() == 8,
{
    s.key_id().as_ref().to_vec()
}

#[verifier::external_type_specification]
#[verifier::external_body]
pub struct ExSignedSecretKey(pgp::SignedSecretKey);

#[verifier::external_type_specification]
#[verifier::external_body]
pub struct ExMessage(pgp::Message);

#[verifier::external_type_specification]
#[verifier::external_body]
pub struct ExPgpError(pgp::errors::Error);

/// The version numbers of every key in a private key: the primary key, then
/// the public subkeys, then the secret subkeys, in stored order.
pub uninterp spec fn secret_key_versions_of(k: pgp::SignedSecretKey) -> Seq<u8>;

/// Relies on `PublicKeyTrait::version` of the packets held by the fields
/// `primary_key`, `public_subkeys` and `secret_subkeys` of `SignedSecretKey`.
#[verifier::external_body]
pub(crate) fn secret_key_versions(k: &pgp::SignedSecretKey) -> (r: Vec<u8>)
    ensures
        r@ == secret_key_versions_of(*k),
{
    std::iter::once(k.primary_key.version())
        .chain(k.public_subkeys.iter().map(|s| s.key.version()))
        .chain(k.secret_subkeys.iter().map(|s| s.key.version()))
        .map(u8::from)
        .collect()
}

/// What `Deserializable::from_bytes` makes of these bytes as a private key,
/// with a failure given by `pgp::errors::Error::as_code`.
pub uninterp spec fn secret_key_parsed_from_bytes(b: Seq<u8>) -> Result<pgp::SignedSecretKey, u32>;

/// What `Deserializable::from_armor_single` makes of this text as a private key.
pub uninterp spec fn secret_key_parsed_from_armor(b: Seq<u8>) -> Result<pgp::SignedSecretKey, u32>;

/// What `Deserializable::from_bytes` makes of these bytes as a public key.
pub uninterp spec fn public_key_parsed_from_bytes(b: Seq<u8>) -> Result<pgp::SignedPublicKey, u32>;

/// What `Deserializable::from_armor_single` makes of this text as a public key.
pub uninterp spec fn public_key_parsed_from_armor(b: Seq<u8>) -> Result<pgp::SignedPublicKey, u32>;

/// What `Deserializable::from_bytes` makes of these bytes as a message.
pub uninterp spec fn message_parsed_from_bytes(b: Seq<u8>) -> Result<pgp::Message, u32>;

/// What `Deserializable::from_armor_single` makes of this text as a message.
pub uninterp spec fn message_parsed_from_armor(b: Seq<u8>) -> Result<pgp::Message, u32>;

/// Relies on `Deserializable::from_bytes` for `SignedSecretKey`, a function
/// of the bytes; a failure is reported by its `as_code`.
#[verifier::external_body]
pub(crate) fn secret_key_from_bytes(b: &Vec<u8>) -> (r: Result<pgp::SignedSecretKey, u32>)
    ensures
        r == secret_key_parsed_from_bytes(b@),
{
    pgp::SignedSecretKey::from_bytes(b.as_slice()).map_err(|e| e.as_code())
}

/// Relies on `Deserializable::from_armor_single` for `SignedSecretKey`, a
/// function of the text; the armor headers are dropped.
#[verifier::external_body]
pub(crate) fn secret_key_from_armor(b: &Vec<u8>) -> (r: Result<pgp::SignedSecretKey, u32>)
    ensures
        r == secret_key_parsed_from_armor(b@),
{
    pgp::SignedSecretKey::from_armor_single(b.as_slice()).map(|(k, _)| k).map_err(|e| e.as_code())
}

/// Relies on `Deserializable::from_bytes` for `SignedPublicKey`.
#[verifier::external_body]
pub(crate) fn public_key_from_bytes(b: &Vec<u8>) -> (r: Result<pgp::SignedPublicKey, u32>)
    ensures
        r == public_key_parsed_from_bytes(b@),
{
    pgp::SignedPublicKey::from_bytes(b.as_slice()).map_err(|e| e.as_code())
}

/// Relies on `Deserializable::from_armor_single` for `SignedPublicKey`; the
/// armor headers are dropped.
#[verifier::external_body]
pub(crate) fn public_key_from_armor(b: &Vec<u8>) -> (r: Result<pgp::SignedPublicKey, u32>)
    ensures
        r == public_key_parsed_from_armor(b@),
{
    pgp::SignedPublicKey::from_armor_single(b.as_slice()).map(|(k, _)| k).map_err(|e| e.as_code())
}

/// Relies on `Deserializable::from_bytes` for `Message`.
#[verifier::external_body]
pub(crate) fn message_from_bytes(b: &Vec<u8>) -> (r: Result<pgp::Message, u32>)
    ensures
        r == message_parsed_from_bytes(b@),
{
    pgp::Message::from_bytes(b.as_slice()).map_err(|e| e.as_code())
}

/// Relies on `Deserializable::from_armor_single` for `Message`; the armor
/// headers are dropped.
#[verifier::external_body]
pub(crate) fn message_from_armor(b: &Vec<u8>) -> (r: Result<pgp::Message, u32>)
    ensures
        r == message_parsed_from_armor(b@),
{
    pgp::Message::from_armor_single(b.as_slice()).map(|(m, _)| m).map_err(|e| e.as_code())
}

/// The output of `Serialize::to_bytes` for a private key, if it succeeds.
pub uninterp spec fn secret_key_bytes_of(k: pgp::SignedSecretKey) -> Option<Seq<u8>>;

/// The output of `SignedSecretKey::to_armored_bytes` with default options.
pub uninterp spec fn secret_key_armor_of(k: pgp::SignedSecretKey) -> Option<Seq<u8>>;

/// The output of `Serialize::to_bytes` for a public key, if it succeeds.
pub uninterp spec fn public_key_bytes_of(k: pgp::SignedPublicKey) -> Option<Seq<u8>>;

/// The output of `SignedPublicKey::to_armored_bytes` with default options.
pub uninterp spec fn public_key_armor_of(k: pgp::SignedPublicKey) -> Option<Seq<u8>>;

/// Relies on `Serialize::to_bytes` for `SignedSecretKey`, which writes the
/// primary key packet first: its header byte has the top bit set. Writing a
/// key of version 2 or 3 without an expiration panics.
#[verifier::external_body]
pub(crate) fn secret_key_to_bytes(k: &pgp::SignedSecretKey) -> (r: Option<Vec<u8>>)
    requires
        all_supported(secret_key_versions_of(*k)),
    ensures
        r is Some <==> secret_key_bytes_of(*k) is Some,
        r matches Some(b) ==> secret_key_bytes_of(*k) == Some(b@) && b@.len() > 0 && b@[0] >= 128,
{
    k.to_bytes().ok()
}

/// Relies on `SignedSecretKey::to_armored_bytes`, whose armor writer opens
/// the text with `-----BEGIN `; the body is written as by `to_bytes`.
#[verifier::external_body]
pub(crate) fn secret_key_to_armored(k: &pgp::SignedSecretKey) -> (r: Option<Vec<u8>>)
    requires
        all_supported(secret_key_versions_of(*k)),
    ensures
        r is Some <==> secret_key_armor_of(*k) is Some,
        r matches Some(b) ==> secret_key_armor_of(*k) == Some(b@) && looks_armored(b@),
{
    k.to_armored_bytes(Default::default()).ok()
}

/// Relies on `Serialize::to_bytes` for `SignedPublicKey`, which writes the
/// primary key packet first: its header byte has the top bit set. Writing a
/// key of version 2 or 3 without an expiration panics.
#[verifier::external_body]
pub(crate) fn public_key_to_bytes(k: &pgp::SignedPublicKey) -> (r: Option<Vec<u8>>)
    requires
        public_versions_supported(*k),
    ensures
        r is Some <==> public_key_bytes_of(*k) is Some,
        r matches Some(b) ==> public_key_bytes_of(*k) == Some(b@) && b@.len() > 0 && b@[0] >= 128,
{
    k.to_bytes().ok()
}

/// Relies on `SignedPublicKey::to_armored_bytes`, whose armor writer opens
/// the text with `-----BEGIN `; the body is written as by `to_bytes`.
#[verifier::external_body]
pub(crate) fn public_key_to_armored(k: &pgp::SignedPublicKey) -> (r: Option<Vec<u8>>)
    requires
        public_versions_supported(*k),
    ensures
        r is Some <==> public_key_armor_of(*k) is Some,
        r matches Some(b) ==> public_key_armor_of(*k) == Some(b@) && looks_armored(b@),
{
    k.to_armored_bytes(Default::default()).ok()
}

/// The public view that `From<SignedSecretKey> for SignedPublicKey` makes.
pub uninterp spec fn public_view_of(k: pgp::SignedSecretKey) -> pgp::SignedPublicKey;

/// Relies on `From<SignedSecretKey> for SignedPublicKey`: the public parts of
/// the primary key and of every signed subkey, with their signatures; pgp
/// leaves out subkeys that carry no signature.
#[verifier::external_body]
pub(crate) fn public_view(k: &pgp::SignedSecretKey) -> (r: pgp::SignedPublicKey)
    ensures
        r == public_view_of(*k),
{
    pgp::SignedPublicKey::from(k.clone())
}

/// Relies on `Message::new_literal_bytes`: a literal data message with an
/// empty file name holding `data`.
#[verifier::external_body]
pub(crate) fn literal_message(data: &Vec<u8>) -> (r: pgp::Message) {
    pgp::Message::new_literal_bytes("", data.as_slice())
}

/// Relies on `Message::encrypt_to_keys_seipdv1` with the primary key as the
/// sole recipient: a fresh session key from the thread's random generator,
/// wrapped into one version 3 session-key packet tagged with the key's id
/// (`PublicKeyEncryptedSessionKey::from_session_key_v3`), and the message
/// encrypted with integrity protection; the result is `Message::Encrypted`. The key id panics on keys of
/// versions other than 4 and 6.
#[verifier::external_body]
pub(crate) fn encrypt_to_primary(m: &pgp::Message, k: &pgp::SignedPublicKey, cipher: u8) -> (r: Result<pgp::Message, pgp::errors::Error>)
    requires
        supported_version(primary_version(*k)),
    ensures
        r matches Ok(e) ==> session_key_packets_of(e) == seq![Some(primary_key_id(*k))],
{
    m.encrypt_to_keys_seipdv1(rand::thread_rng(), cipher.into(), &[k])
}

/// Relies on `Message::encrypt_to_keys_seipdv1` with one subkey as the sole
/// recipient, as for the primary key.
#[verifier::external_body]
pub(crate) fn encrypt_to_subkey(m: &pgp::Message, s: &pgp::SignedPublicSubKey, cipher: u8) -> (r: Result<pgp::Message, pgp::errors::Error>)
    requires
        supported_version(subkey_version(*s)),
    ensures
        r matches Ok(e) ==> session_key_packets_of(e) == seq![Some(subkey_key_id(*s))],
{
    m.encrypt_to_keys_seipdv1(rand::thread_rng(), cipher.into(), &[s])
}

/// The output of `Serialize::to_bytes` for a message, if it succeeds.
pub uninterp spec fn message_bytes_of(m: pgp::Message) -> Option<Seq<u8>>;

/// The output of `Message::to_armored_bytes` with default options.
pub uninterp spec fn message_armor_of(m: pgp::Message) -> Option<Seq<u8>>;

/// The session-key packets of an encrypted message, in stored order: for
/// each, the recipient key id that a version 3 public-key packet names, or
/// `None`. A message that is not `Message::Encrypted` has none.
pub uninterp spec fn session_key_packets_of(m: pgp::Message) -> Seq<Option<Seq<u8>>>;

/// Relies on the `esk` field of `Message::Encrypted` and on
/// `PublicKeyEncryptedSessionKey::id`, which gives the key id of a version 3
/// packet.
#[verifier::external_body]
pub(crate) fn session_key_packets(m: &pgp::Message) -> (r: Vec<Option<Vec<u8>>>)
    ensures
        r@.len() == session_key_packets_of(*m).len(),
        forall|i: int|
            0 <= i < r@.len() ==> match #[trigger] r@[i] {
                Some(id) => session_key_packets_of(*m)[i] == Some(id@),
                None => session_key_packets_of(*m)[i] is None,
            },
{
    match m {
        pgp::Message::Encrypted { esk, .. } => esk.iter().map(|e| match e {
            pgp::Esk::PublicKeyEncryptedSessionKey(p) => p.id().ok().map(|i| i.as_ref().to_vec()),
            pgp::Esk::SymKeyEncryptedSessionKey(_) => None,
        }).collect(),
        _ => Vec::new(),
    }
}

/// Relies on `Serialize::to_bytes` for `Message`, which writes at least one
/// packet whatever the variant: the first header byte has the top bit set.
#[verifier::external_body]
pub(crate) fn message_to_bytes(m: &pgp::Message) -> (r: Option<Vec<u8>>)
    ensures
        r is Some <==> message_bytes_of(*m) is Some,
        r matches Some(b) ==> message_bytes_of(*m) == Some(b@) && b@.len() > 0 && b@[0] >= 128,
{
    m.to_bytes().ok()
}

/// Relies on `Message::to_armored_bytes`, whose armor writer opens the text
/// with `-----BEGIN `.
#[verifier::external_body]
pub(crate) fn message_to_armored(m: &pgp::Message) -> (r: Option<Vec<u8>>)
    ensures
        r is Some <==> message_armor_of(*m) is Some,
        r matches Some(b) ==> message_armor_of(*m) == Some(b@) && looks_armored(b@),
{
    m.to_armored_bytes(Default::default()).ok()
}

/// What `Message::decrypt` with an empty passphrase makes of a message and
/// one private key, with a failure given by `as_code`.
pub uninterp spec fn decrypted_with(m: pgp::Message, k: pgp::SignedSecretKey) -> Result<pgp::Message, u32>;

/// Relies on `Message::decrypt` with one key and an empty passphrase. It
/// fails with `MissingKey` when no session-key packet names the key or one of
/// its secret subkeys, and with `MdcError` when the integrity check fails.
/// The list of matching key ids is dropped. Matching runs `key_id` on the
/// private keys, which panics on versions other than 4 and 6.
#[verifier::external_body]
pub(crate) fn decrypt_message(m: &pgp::Message, k: &pgp::SignedSecretKey) -> (r: Result<pgp::Message, u32>)
    requires
        all_supported(secret_key_versions_of(*k)),
    ensures
        r == decrypted_with(*m, *k),
{
    m.decrypt(String::new, &[k]).map(|(d, _)| d).map_err(|e| e.as_code())
}

/// What `Message::get_content` returns for a message: its literal data, if
/// it holds any.
pub uninterp spec fn content_of(m: pgp::Message) -> Result<Option<Seq<u8>>, u32>;

/// Relies on `Message::get_content`.
#[verifier::external_body]
pub(crate) fn message_content(m: &pgp::Message) -> (r: Result<Option<Vec<u8>>, u32>)
    ensures
        match content_of(*m) {
            Ok(Some(p)) => r matches Ok(Some(b)) && b@ == p,
            Ok(None) => r matches Ok(None),
            Err(c) => r matches Err(d) && d == c,
        },
{
    m.get_content().map_err(|e| e.as_code())
}

/// The key versions for which pgp computes key ids and writes keys.
pub open spec fn supported_version(v: u8) -> bool {
    v == 4 || v == 6
}

/// Whether every version number in `vs` is supported.
pub open spec fn all_supported(vs: Seq<u8>) -> bool {
    forall|i: int| 0 <= i < vs.len() ==> supported_version(#[trigger] vs[i])
}

/// Whether the primary key and every subkey of a public key are of a
/// supported version.
pub open spec fn public_versions_supported(k: pgp::SignedPublicKey) -> bool {
    &&& supported_version(primary_version(k))
    &&& forall|i: int|
        0 <= i < public_subkeys_of(k).len() ==> supported_version(
            #[trigger] subkey_version(public_subkeys_of(k)[i]),
        )
}

} // verus!

verus! {

#[verifier::external_type_specification]
#[verifier::external_body]
pub struct ExKeyType(pgp::KeyType);

#[verifier::external_type_specification]
#[verifier::external_body]
pub struct ExSubkeyParams(pgp::SubkeyParams);

#[verifier::external_type_specification]
#[verifier::external_body]
pub struct ExSecretKeyParams(pgp::SecretKeyParams);

#[verifier::external_type_specification]
#[verifier::external_body]
pub struct ExSecretKey(pgp::SecretKey);

/// Relies on `pgp::KeyType`: the variant that names the same algorithm.
#[verifier::external_body]
fn key_type_of(a: KeyAlgorithm) -> (r: pgp::KeyType) {
    match a {
        KeyAlgorithm::Ed25519 => pgp::KeyType::Ed25519,
        KeyAlgorithm::X25519 => pgp::KeyType::X25519,
    }
}

/// Relies on `SubkeyParamsBuilder`: the builder's own validation may refuse
/// the settings, which gives `None`.
#[verifier::external_body]
pub(crate) fn subkey_params(a: KeyAlgorithm, roles: KeyRoles) -> (r: Option<pgp::SubkeyParams>) {
    pgp::SubkeyParamsBuilder::default()
        .key_type(key_type_of(a))
        .can_certify(roles.can_certify)
        .can_sign(roles.can_sign)
        .can_encrypt(roles.can_encrypt)
        .build()
        .ok()
}

/// Relies on `SecretKeyParamsBuilder`: the builder's own validation may
/// refuse the settings, which gives `None`.
#[verifier::external_body]
pub(crate) fn secret_key_params(c: &KeyGenConfig, subkeys: Vec<pgp::SubkeyParams>) -> (r: Option<pgp::SecretKeyParams>) {
    pgp::SecretKeyParamsBuilder::default()
        .key_type(key_type_of(c.primary_algorithm))
        .can_certify(c.primary_roles.can_certify)
        .can_sign(c.primary_roles.can_sign)
        .can_encrypt(c.primary_roles.can_encrypt)
        .primary_user_id(c.user_id.clone())
        .subkeys(subkeys)
        .preferred_symmetric_algorithms(SmallVec::from_slice(&[c.preferred_symmetric.into()]))
        .preferred_hash_algorithms(SmallVec::from_slice(&[c.preferred_hash.into()]))
        .preferred_compression_algorithms(SmallVec::from_slice(&[c.preferred_compression.into()]))
        .build()
        .ok()
}

/// Relies on `SecretKeyParams::generate`, drawing key material from the
/// thread's random generator.
#[verifier::external_body]
pub(crate) fn generate_secret_key(p: pgp::SecretKeyParams) -> (r: Result<pgp::SecretKey, pgp::errors::Error>) {
    p.generate(rand::thread_rng())
}

/// Relies on `SecretKey::sign`: the primary key certifies the identity and
/// binds each subkey; the key material has no passphrase.
#[verifier::external_body]
pub(crate) fn self_certify(k: pgp::SecretKey) -> (r: Result<pgp::SignedSecretKey, pgp::errors::Error>) {
    k.sign(&mut rand::thread_rng(), String::new)
}

} // verus!
