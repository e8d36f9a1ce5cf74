use aes_gcm::aead::generic_array::GenericArray;
use aes_gcm::aead::{Aead, KeyInit, Payload};
use base64::Engine;
use signet_client::calendar::{civil_from_days, rfc3339_given, rfc3339_now_utc, rfc3339_utc};
use signet_client::encoding::hex_upper;
use signet_client::recipient::is_low_order_recipient;
use signet_client::sops_encrypt::{
    assemble_document, encrypt_for_secret, encrypt_given, finish_document, force_quote_scalar,
    seal_leaf, sops_encrypt_leaf, KeyWrapping, SopsEncryptError, SOPS_FILE_VERSION,
};

/// The error of a call that is expected to fail.
fn error_of(result: Result<Vec<u8>, SopsEncryptError>) -> SopsEncryptError {
    match result {
        Ok(_) => panic!("expected an error"),
        Err(error) => error,
    }
}

/// The ciphertext, nonce and tag of a leaf.
fn leaf_fields(leaf: &str) -> (Vec<u8>, Vec<u8>, Vec<u8>) {
    let inner = leaf.strip_prefix("ENC[AES256_GCM,").unwrap().strip_suffix(",type:str]").unwrap();
    let fields: Vec<&str> = inner.split(',').collect();
    assert_eq!(fields.len(), 3);
    let decode = |field: &str, key: &str| {
        base64::engine::general_purpose::STANDARD.decode(field.strip_prefix(key).unwrap()).unwrap()
    };
    (decode(fields[0], "data:"), decode(fields[1], "iv:"), decode(fields[2], "tag:"))
}

/// Opens a leaf as a reader of the document does.
fn open_leaf(key: &[u8], leaf: &str, additional_data: &[u8]) -> Option<Vec<u8>> {
    let (data, nonce, tag) = leaf_fields(leaf);
    assert_eq!(nonce.len(), 32);
    assert_eq!(tag.len(), 16);
    let cipher: aes_gcm::AesGcm<aes_gcm::aes::Aes256, aes_gcm::aead::consts::U32> =
        aes_gcm::AesGcm::new(GenericArray::from_slice(key));
    let sealed = [data, tag].concat();
    let payload = Payload { msg: &sealed, aad: additional_data };
    cipher.decrypt(GenericArray::from_slice(&nonce), payload).ok()
}

/// Reads the value of a document with an identity, checking its MAC.
fn open_document(document: &[u8], identity: &age::x25519::Identity) -> Option<Vec<u8>> {
    let yaml: serde_yaml_ng::Value = serde_yaml_ng::from_slice(document).unwrap();
    let text = |value: &serde_yaml_ng::Value| value.as_str().unwrap().to_string();
    let sops = &yaml["sops"];
    let key = age::decrypt(identity, text(&sops["age"][0]["enc"]).as_bytes()).ok()?;
    let value = open_leaf(&key, &text(&yaml["value"]), b"value:")?;
    let last_modified = text(&sops["lastmodified"]);
    let mac = open_leaf(&key, &text(&sops["mac"]), last_modified.as_bytes())?;
    let digest = <sha2::Sha512 as sha2::Digest>::digest(&value);
    assert_eq!(mac, hex_upper(&digest).into_bytes());
    Some(value)
}

#[test]
fn encrypt_for_secret_recipient_can_decrypt() {
    let identity = age::x25519::Identity::generate();
    let recipient = identity.to_public().to_string();
    let encrypted = encrypt_for_secret(&recipient, b"hello-world").unwrap();
    assert_eq!(open_document(&encrypted, &identity).unwrap(), b"hello-world");
    let yaml: serde_yaml_ng::Value = serde_yaml_ng::from_slice(&encrypted).unwrap();
    let enc = yaml["sops"]["age"][0]["enc"].as_str().unwrap();
    let key = age::decrypt(&identity, enc.as_bytes()).unwrap();
    let mac = open_leaf(
        &key,
        yaml["sops"]["mac"].as_str().unwrap(),
        yaml["sops"]["lastmodified"].as_str().unwrap().as_bytes(),
    );
    assert_eq!(
        String::from_utf8(mac.unwrap()).unwrap(),
        "6AEEFC29122A3962C90EF834F6CAAD0033BFFCD62941B7A6205A695CC39E2767\
         DB7778A7AD76D173A083B9E14B210DC0212923F481B285C784AB1FE340D7FF4D"
    );
    assert_eq!(yaml["sops"]["age"][0]["recipient"].as_str().unwrap(), recipient);
    assert_eq!(yaml["sops"]["version"].as_str().unwrap(), "3.13.1");
    // The two scalars stand in double quotes in the text itself.
    let text = String::from_utf8(encrypted).unwrap();
    let last_modified = yaml["sops"]["lastmodified"].as_str().unwrap();
    assert!(text.contains(&format!("\n  lastmodified: \"{last_modified}\"\n")));
    assert!(text.contains("\n  version: \"3.13.1\"\n"));
    assert_eq!(last_modified.len(), 20);
}

#[test]
fn encrypt_for_secret_other_identity_cannot_decrypt() {
    let encrypted_to = age::x25519::Identity::generate();
    let wrong_identity = age::x25519::Identity::generate();
    let encrypted =
        encrypt_for_secret(&encrypted_to.to_public().to_string(), b"hello-world").unwrap();
    assert_eq!(open_document(&encrypted, &wrong_identity), None);
}

#[test]
fn encrypt_for_secret_handles_empty_and_binary_values() {
    let identity = age::x25519::Identity::generate();
    let recipient = identity.to_public().to_string();
    let bytes: Vec<u8> = (0..=255).collect();
    for value in [&b""[..], &bytes[..]] {
        let encrypted = encrypt_for_secret(&recipient, value).unwrap();
        assert_eq!(open_document(&encrypted, &identity).unwrap(), value);
    }
}

#[test]
fn encrypt_for_secret_takes_a_recipient_in_upper_case() {
    let identity = age::x25519::Identity::generate();
    let recipient = identity.to_public().to_string().to_uppercase();
    let encrypted = encrypt_for_secret(&recipient, b"hello-world").unwrap();
    assert_eq!(open_document(&encrypted, &identity).unwrap(), b"hello-world");
}

#[test]
fn encrypt_given_is_determined_by_its_arguments() {
    let (key, value_nonce, mac_nonce) = ([1u8; 32], [2u8; 32], [3u8; 32]);
    let make = |public_key: &str, secs, wrapping| {
        encrypt_given(public_key, b"hello-world", &key, &value_nonce, &mac_nonce, secs, wrapping)
    };
    let wrapped = || KeyWrapping::Wrapped("wrapped key".to_string());
    let document = make("age1recipient", Some(1_786_795_200), wrapped()).unwrap();
    let yaml: serde_yaml_ng::Value = serde_yaml_ng::from_slice(&document).unwrap();
    let text = |value: &serde_yaml_ng::Value| value.as_str().unwrap().to_string();
    assert_eq!(text(&yaml["sops"]["lastmodified"]), "2026-08-15T12:00:00Z");
    assert_eq!(text(&yaml["sops"]["age"][0]["recipient"]), "age1recipient");
    assert_eq!(text(&yaml["sops"]["age"][0]["enc"]), "wrapped key");
    let value = text(&yaml["value"]);
    assert_eq!(value, seal_leaf(&key, &value_nonce, b"hello-world", b"value:").unwrap());
    assert_eq!(open_leaf(&key, &value, b"value:").unwrap(), b"hello-world");
    let mac = text(&yaml["sops"]["mac"]);
    assert_eq!(leaf_fields(&mac).1, mac_nonce);
    assert_eq!(open_leaf(&key, &mac, b"2026-08-15T12:00:00Z").unwrap().len(), 128);
    assert_eq!(make("age1recipient", Some(1_786_795_200), wrapped()).unwrap(), document);

    // What was found outside decides the errors, in this order.
    let parse = || KeyWrapping::NoRecipient("bad key".to_string());
    assert!(matches!(make("", None, parse()), Err(SopsEncryptError::EmptyPublicKey)));
    assert!(matches!(make("x", None, parse()),
        Err(SopsEncryptError::ParseRecipient(cause)) if cause == "bad key"));
    let failed = || KeyWrapping::Failed("no entropy".to_string());
    assert!(matches!(make("x", None, failed()), Err(SopsEncryptError::ClockBeforeEpoch)));
    assert!(matches!(make("x", None, wrapped()), Err(SopsEncryptError::ClockBeforeEpoch)));
    assert!(matches!(make("x", Some(0), failed()),
        Err(SopsEncryptError::WrapDataKey(cause)) if cause == "no entropy"));
}

#[test]
fn encrypt_for_secret_is_fresh_each_time() {
    let recipient = age::x25519::Identity::generate().to_public().to_string();
    let first = encrypt_for_secret(&recipient, b"hello-world").unwrap();
    let second = encrypt_for_secret(&recipient, b"hello-world").unwrap();
    assert_ne!(first, second);
}

#[test]
fn encrypt_for_secret_empty_public_key() {
    let err = error_of(encrypt_for_secret("", b"hello-world"));
    assert!(matches!(err, SopsEncryptError::EmptyPublicKey));
    assert_eq!(err.to_string(), "signet: public key must not be empty");
}

#[test]
fn encrypt_for_secret_invalid_public_key() {
    let err = error_of(encrypt_for_secret("not-a-real-age-key", b"hello-world"));
    assert!(matches!(err, SopsEncryptError::ParseRecipient(_)));
    assert_eq!(err.to_string(), "signet: parse age recipient: invalid Bech32 encoding");
}

#[test]
fn encrypt_for_secret_reports_the_parsers_message() {
    let identity = age::x25519::Identity::generate();
    let secret = age::secrecy::ExposeSecret::expose_secret(&identity.to_string()).to_string();
    let err = error_of(encrypt_for_secret(&secret, b"hello-world"));
    assert!(matches!(err, SopsEncryptError::ParseRecipient(cause) if cause == "incorrect HRP"));
}

#[test]
fn low_order_recipients_are_recognised() {
    for low in [
        "age1qqqqqqqqqqqqqqqqqqqqqqqqqqqqqqqqqqqqqqqqqqqqqqqqqqqq5cu47z",
        "age1qyqqqqqqqqqqqqqqqqqqqqqqqqqqqqqqqqqqqqqqqqqqqqqqqqqqj7vrya",
        "age1ur4h5lpmgxu2u9jku0a0r87ydtdqnr0tnsetrlvxvgz3vh6fhqqqzyt4v9",
        "age1t7wft09r2zxzfvwsk92eeql0tvzyghxytqwgapkcyf8dm5ylz9ts6wm9s8",
        "age1anlllllllllllllllllllllllllllllllllllllllllllllllals4n2t7m",
        "age1ahlllllllllllllllllllllllllllllllllllllllllllllllalsn46ayy",
        "age1amlllllllllllllllllllllllllllllllllllllllllllllllalselrwrv",
        "age1qqqqqqqqqqqqqqqqqqqqqqqqqqqqqqqqqqqqqqqqqqqqqqqqqzqqsuwj9m",
        "age1qyqqqqqqqqqqqqqqqqqqqqqqqqqqqqqqqqqqqqqqqqqqqqqqqzqqk67yly",
        "age1ur4h5lpmgxu2u9jku0a0r87ydtdqnr0tnsetrlvxvgz3vh6fhzqqxqejhu",
        "age1t7wft09r2zxzfvwsk92eeql0tvzyghxytqwgapkcyf8dm5ylz8ts72fzt7",
        "age1anllllllllllllllllllllllllllllllllllllllllllllllllls3hcv9z",
        "age1ahlllllllllllllllllllllllllllllllllllllllllllllllllsh3g6la",
        "age1amlllllllllllllllllllllllllllllllllllllllllllllllllsam3fc4",
    ] {
        assert!(low.parse::<age::x25519::Recipient>().is_ok(), "{low}");
        assert!(is_low_order_recipient(low), "{low}");
        assert!(is_low_order_recipient(&low.to_uppercase()), "{low}");
    }
    // Mixed case is no recipient, and is refused as such.
    let mixed = "Age1qqqqqqqqqqqqqqqqqqqqqqqqqqqqqqqqqqqqqqqqqqqqqqqqqqqq5cu47z";
    assert!(!is_low_order_recipient(mixed));
    let err = error_of(encrypt_for_secret(mixed, b"hello-world"));
    assert!(matches!(err, SopsEncryptError::ParseRecipient(_)));
    let ordinary = age::x25519::Identity::generate().to_public().to_string();
    assert!(!is_low_order_recipient(&ordinary));
    assert!(!is_low_order_recipient(""));
}

#[test]
fn seal_leaf_is_determined_by_its_arguments() {
    let key = [7u8; 32];
    let nonce: [u8; 32] = core::array::from_fn(|i| i as u8);
    let leaf = seal_leaf(&key, &nonce, b"hello-world", b"value:").unwrap();
    assert_eq!(leaf, seal_leaf(&key, &nonce, b"hello-world", b"value:").unwrap());
    let (data, iv, tag) = leaf_fields(&leaf);
    assert_eq!(data.len(), 11);
    assert_eq!(iv, nonce);
    assert_eq!(tag.len(), 16);
    assert!(leaf.contains(",iv:AAECAwQFBgcICQoLDA0ODxAREhMUFRYXGBkaGxwdHh8=,tag:"));
    assert_eq!(open_leaf(&key, &leaf, b"value:").unwrap(), b"hello-world");
    // Another key, or other additional data, opens nothing.
    assert_eq!(open_leaf(&[8u8; 32], &leaf, b"value:"), None);
    assert_eq!(open_leaf(&key, &leaf, b"other:"), None);
}

#[test]
fn sops_encrypt_leaf_draws_a_nonce_and_opens() {
    let key = [9u8; 32];
    let first = sops_encrypt_leaf(&key, b"", b"").unwrap();
    let second = sops_encrypt_leaf(&key, b"", b"").unwrap();
    assert_ne!(leaf_fields(&first).1, leaf_fields(&second).1);
    assert_eq!(open_leaf(&key, &first, b"").unwrap(), b"");
}

#[test]
fn force_quote_scalar_quotes_the_first_occurrence() {
    assert_eq!(
        force_quote_scalar("a: 1\nversion: 3.13.1\nversion: 3.13.1\n", "version", "3.13.1"),
        "a: 1\nversion: \"3.13.1\"\nversion: 3.13.1\n"
    );
    assert_eq!(force_quote_scalar("a: 1\n", "version", "3.13.1"), "a: 1\n");
    assert_eq!(force_quote_scalar("", "", ""), "");
    assert_eq!(force_quote_scalar("k: ", "k", ""), "k: \"\"");
}

#[test]
fn finish_document_quotes_both_scalars() {
    let finished = finish_document(
        "sops:\n  lastmodified: 2026-08-15T12:00:00Z\n  version: 3.13.1\n",
        "2026-08-15T12:00:00Z",
    );
    assert_eq!(
        String::from_utf8(finished).unwrap(),
        "sops:\n  lastmodified: \"2026-08-15T12:00:00Z\"\n  version: \"3.13.1\"\n"
    );
}

#[test]
fn assemble_document_has_the_exact_text() {
    let document = assemble_document(
        "age1recipient",
        "ENC[value]".to_string(),
        "ENC[mac]".to_string(),
        "2026-08-15T12:00:00Z".to_string(),
        Ok("first line\nsecond line\n".to_string()),
    )
    .unwrap();
    assert_eq!(
        String::from_utf8(document).unwrap(),
        "value: ENC[value]\nsops:\n  age:\n  - recipient: age1recipient\n    enc: |\n      \
         first line\n      second line\n  lastmodified: \"2026-08-15T12:00:00Z\"\n  \
         mac: ENC[mac]\n  version: \"3.13.1\"\n"
    );
}

#[test]
fn assemble_document_reports_a_failure_to_wrap() {
    let err = error_of(assemble_document(
        "age1recipient",
        String::new(),
        String::new(),
        String::new(),
        Err("no entropy".to_string()),
    ));
    assert_eq!(err.to_string(), "signet: wrap data key: no entropy");
}

#[test]
fn sops_errors_say_what_failed() {
    let cause = || "boom".to_string();
    let cases = [
        (SopsEncryptError::EncryptValue(cause()), "signet: encrypt value: boom"),
        (SopsEncryptError::EncryptMac(cause()), "signet: encrypt mac: boom"),
        (SopsEncryptError::WrapDataKey(cause()), "signet: wrap data key: boom"),
        (SopsEncryptError::Marshal(cause()), "signet: marshal sops document: boom"),
        (SopsEncryptError::ClockBeforeEpoch, "system clock is before the Unix epoch"),
    ];
    for (error, text) in cases {
        assert_eq!(error.to_string(), text);
    }
    assert_eq!(SOPS_FILE_VERSION, "3.13.1");
}

#[test]
fn hex_upper_writes_two_digits_a_byte() {
    assert_eq!(hex_upper(&[]), "");
    assert_eq!(hex_upper(&[0x00, 0x0f, 0xa0, 0xff]), "000FA0FF");
}

#[test]
fn civil_from_days_knows_the_calendar() {
    for (days, date) in [
        (0, (1970, 1, 1)),
        (-1, (1969, 12, 31)),
        (11_016, (2000, 2, 29)),
        (11_017, (2000, 3, 1)),
        (19_782, (2024, 2, 29)),
        (47_540, (2100, 2, 28)),
        (47_541, (2100, 3, 1)),
        (-719_468, (0, 3, 1)),
        (-719_469, (0, 2, 29)),
    ] {
        assert_eq!(civil_from_days(days), date, "day {days}");
    }
}

#[test]
fn civil_from_days_follows_the_days() {
    let mut previous = civil_from_days(-200_001);
    for days in -200_000..200_000 {
        let date = civil_from_days(days);
        assert!(previous < date, "day {days}");
        previous = date;
    }
}

#[test]
fn rfc3339_utc_formats_moments() {
    assert_eq!(rfc3339_utc(0), "1970-01-01T00:00:00Z");
    assert_eq!(rfc3339_utc(86_399), "1970-01-01T23:59:59Z");
    assert_eq!(rfc3339_utc(1_786_795_200), "2026-08-15T12:00:00Z");
    assert_eq!(rfc3339_utc(4_107_542_400), "2100-03-01T00:00:00Z");
    assert_eq!(rfc3339_utc(253_402_300_800), "10000-01-01T00:00:00Z");
}

#[test]
fn rfc3339_now_utc_is_after_the_epoch() {
    let now = rfc3339_now_utc().unwrap();
    assert_eq!(now.len(), 20);
    assert!(now.as_str() > "2024-01-01T00:00:00Z");
}

#[test]
fn rfc3339_given_follows_the_clock() {
    assert_eq!(rfc3339_given(Some(1_786_795_200)).as_deref(), Some("2026-08-15T12:00:00Z"));
    assert_eq!(rfc3339_given(Some(0)).as_deref(), Some("1970-01-01T00:00:00Z"));
    assert_eq!(rfc3339_given(None), None);
}
