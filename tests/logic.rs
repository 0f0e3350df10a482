use tpg::cli::{payload_source, PayloadSource};
use tpg::error::{
    decryption_error, envelope_error, key_error, CryptError, PGP_MDC_ERROR, PGP_MISSING_KEY,
};
use tpg::form::{detect_form, Form};
use tpg::generate::{
    default_key_config, generate_key, user_id, validate_config, KeyAlgorithm, KeyRoles,
    SubkeySpec, AES256, SHA2_256, ZLIB,
};
use tpg::select::{select_slot, KeySlot};

#[test]
fn selection_prefers_primary() {
    assert_eq!(select_slot(true, &vec![true, true]), Some(KeySlot::Primary));
    assert_eq!(select_slot(true, &vec![]), Some(KeySlot::Primary));
}

#[test]
fn selection_takes_first_encrypting_subkey() {
    assert_eq!(select_slot(false, &vec![false, true, true]), Some(KeySlot::Subkey(1)));
    assert_eq!(select_slot(false, &vec![true]), Some(KeySlot::Subkey(0)));
    assert_eq!(select_slot(false, &vec![false, false, false, true]), Some(KeySlot::Subkey(3)));
}

#[test]
fn selection_finds_nothing() {
    assert_eq!(select_slot(false, &vec![]), None);
    assert_eq!(select_slot(false, &vec![false, false]), None);
}

#[test]
fn selection_is_repeatable() {
    let flags = vec![false, true, false, true];
    assert_eq!(select_slot(false, &flags), select_slot(false, &flags));
}

#[test]
fn form_detection() {
    assert_eq!(detect_form(&b"-----BEGIN PGP MESSAGE-----\n".to_vec()), Form::Armored);
    assert_eq!(detect_form(&vec![0xc1, 0x5e, 0x03]), Form::Binary);
    assert_eq!(detect_form(&b"----".to_vec()), Form::Binary);
    assert_eq!(detect_form(&vec![]), Form::Binary);
    assert_eq!(detect_form(&b" -----BEGIN".to_vec()), Form::Binary);
}

#[test]
fn key_error_codes() {
    assert_eq!(key_error(3), CryptError::CorruptArmor);
    assert_eq!(key_error(4), CryptError::CorruptArmor);
    assert_eq!(key_error(5), CryptError::CorruptArmor);
    assert_eq!(key_error(2), CryptError::TruncatedInput);
    assert_eq!(key_error(20), CryptError::TruncatedInput);
    assert_eq!(key_error(0), CryptError::MalformedKey);
    assert_eq!(key_error(14), CryptError::MalformedKey);
}

#[test]
fn envelope_error_codes() {
    assert_eq!(envelope_error(4), CryptError::CorruptArmor);
    assert_eq!(envelope_error(20), CryptError::TruncatedInput);
    assert_eq!(envelope_error(19), CryptError::CorruptEnvelope);
}

#[test]
fn decryption_error_codes() {
    assert_eq!(decryption_error(PGP_MISSING_KEY), CryptError::NoMatchingKey);
    assert_eq!(decryption_error(14), CryptError::NoMatchingKey);
    assert_eq!(decryption_error(PGP_MDC_ERROR), CryptError::IntegrityCheckFailed);
    assert_eq!(decryption_error(27), CryptError::IntegrityCheckFailed);
    assert_eq!(decryption_error(18), CryptError::CorruptEnvelope);
    assert_eq!(decryption_error(4), CryptError::CorruptEnvelope);
}

#[test]
fn identity_string() {
    assert_eq!(user_id("Test", "test@example.com"), "Test <test@example.com>");
    assert_eq!(user_id("", ""), " <>");
}

#[test]
fn default_config_separates_roles() {
    let c = default_key_config("Test", "test@example.com");
    assert_eq!(c.user_id, "Test <test@example.com>");
    assert_eq!(c.primary_algorithm, KeyAlgorithm::Ed25519);
    assert_eq!(c.primary_roles, KeyRoles { can_certify: true, can_sign: true, can_encrypt: false });
    assert_eq!(
        c.subkeys,
        vec![SubkeySpec {
            algorithm: KeyAlgorithm::X25519,
            roles: KeyRoles { can_certify: false, can_sign: false, can_encrypt: true },
        }]
    );
    assert_eq!((c.preferred_symmetric, c.preferred_hash, c.preferred_compression), (AES256, SHA2_256, ZLIB));
    assert!(validate_config(&c));
}

#[test]
fn invalid_configs_are_refused() {
    let base = default_key_config("Test", "test@example.com");

    let mut c = base.clone();
    c.primary_roles.can_encrypt = true;
    assert!(!validate_config(&c));
    assert_eq!(generate_key(&c).err(), Some(CryptError::InvalidKeyConfig));

    let mut c = base.clone();
    c.primary_roles.can_certify = false;
    assert!(!validate_config(&c));

    let mut c = base.clone();
    c.subkeys.clear();
    assert!(!validate_config(&c));

    let mut c = base.clone();
    c.subkeys[0].roles.can_certify = true;
    assert!(!validate_config(&c));

    let mut c = base.clone();
    c.subkeys[0].algorithm = KeyAlgorithm::Ed25519;
    assert!(!validate_config(&c));

    let mut c = base.clone();
    c.user_id = String::new();
    assert!(!validate_config(&c));

    let mut c = base;
    c.primary_algorithm = KeyAlgorithm::X25519;
    assert!(!validate_config(&c));
}

#[test]
fn payload_source_prefers_input_file() {
    assert_eq!(
        payload_source(Some("hi".to_string()), Some("in.txt".to_string())),
        PayloadSource::File("in.txt".to_string())
    );
    assert_eq!(payload_source(Some("hi".to_string()), None), PayloadSource::Text("hi".to_string()));
    assert_eq!(payload_source(None, None), PayloadSource::Missing);
}
