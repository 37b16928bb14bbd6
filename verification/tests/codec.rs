use base64::Engine;
use passcli::codec::{
    decode_container, derive_key, encode_container, open, open_container, refuse, seal,
    seal_with_salt, Container, CostParams, DerivedKey, Salt,
};
use passcli::failure::Failure;
use passcli::store::Store;

const CONTAINER_TEXT: &str =
    "W1swLDEsMiwzLDQsNSw2LDcsOCw5LDEwLDExLDEyLDEzLDE0LDE1XSxbMSwyLDMsMjUwXV0=";

fn light() -> CostParams {
    CostParams { iterations: 3, memory: 8 }
}

fn sample_store() -> Store {
    let mut store = Store::new();
    for account in ["account 1", "account 2"] {
        store
            .add(account, "pass2", String::from("thisispass2"), false)
            .unwrap();
        store
            .add(account, "pass", String::from("thisispass1"), false)
            .unwrap();
    }
    store
}

fn small_store() -> Store {
    let mut store = Store::new();
    store.add("b", "y", String::from("2"), false).unwrap();
    store.add("a", "x", String::from("1"), false).unwrap();
    store.add("a", "w", String::from("0"), false).unwrap();
    store
}

#[test]
fn test_io() {
    let passwords = sample_store();
    let master_pass = String::from("crypto test password");
    let sealed = seal(&passwords, &master_pass, &CostParams::new(3)).unwrap();
    let decrypted_passwords = open(&sealed, &master_pass, &CostParams::new(3)).unwrap();
    assert!(passwords.equals(&decrypted_passwords));
}

#[test]
fn round_trip_of_empty_and_unusual_stores() {
    let empty = Store::new();
    let sealed = seal(&empty, "p", &light()).unwrap();
    assert!(open(&sealed, "p", &light()).unwrap().equals(&empty));

    let mut odd = Store::new();
    odd.add("", "", String::new(), false).unwrap();
    odd.add("quote\"back\\slash", "new\nline", String::from("tab\there\u{0}"), false)
        .unwrap();
    odd.add("süß", "ключ", String::from("値 🔑"), false).unwrap();
    odd.add("empty account", "f", String::from("v"), false).unwrap();
    odd.remove_field("empty account", "f").unwrap();
    let sealed = seal(&odd, "pässwörd", &light()).unwrap();
    let opened = open(&sealed, "pässwörd", &light()).unwrap();
    assert!(opened.equals(&odd));
    assert_eq!(opened.get_account("empty account").unwrap().len(), 0);
}

#[test]
fn wrong_password_fails_authentication() {
    let sealed = seal(&sample_store(), "right", &light()).unwrap();
    for wrong in ["wrong", "Right", "right ", "r"] {
        assert_eq!(
            open(&sealed, wrong, &light()).err(),
            Some(Failure::AuthenticationFailed)
        );
    }
}

#[test]
fn other_cost_parameters_fail_authentication() {
    let sealed = seal(&sample_store(), "right", &light()).unwrap();
    let more_iterations = CostParams { iterations: 4, memory: 8 };
    assert_eq!(
        open(&sealed, "right", &more_iterations).err(),
        Some(Failure::AuthenticationFailed)
    );
    let more_memory = CostParams { iterations: 3, memory: 16 };
    assert_eq!(
        open(&sealed, "right", &more_memory).err(),
        Some(Failure::AuthenticationFailed)
    );
}

#[test]
fn flipping_any_ciphertext_bit_fails_authentication() {
    let sealed = seal(&small_store(), "pw", &light()).unwrap();
    let container = decode_container(&sealed).unwrap();
    let key = derive_key("pw", container.salt(), &light()).unwrap();
    let ciphertext = container.ciphertext().to_vec();
    for index in 0..ciphertext.len() {
        for bit in 0..8 {
            let mut tampered = ciphertext.clone();
            tampered[index] ^= 1 << bit;
            let damaged =
                Container::from_parts(container.salt().as_bytes().to_vec(), tampered).unwrap();
            assert_eq!(
                open_container(&damaged, &key).err(),
                Some(Failure::AuthenticationFailed)
            );
        }
    }
}

#[test]
fn tampered_container_text_never_opens_to_other_accounts() {
    let store = small_store();
    let sealed = seal(&store, "pw", &light()).unwrap();
    let container = decode_container(&sealed).unwrap();
    let mut tampered = container.ciphertext().to_vec();
    let last = tampered.len() - 1;
    tampered[last] ^= 0x80;
    let damaged = Container::from_parts(container.salt().as_bytes().to_vec(), tampered).unwrap();
    let text = encode_container(&damaged);
    assert_eq!(open(&text, "pw", &light()).err(), Some(Failure::AuthenticationFailed));
}

#[test]
fn truncated_ciphertext_fails_authentication() {
    let salt = vec![1u8; 16];
    for length in [0usize, 1, 39, 40, 41] {
        let container = Container::from_parts(salt.clone(), vec![0u8; length]).unwrap();
        let text = encode_container(&container);
        assert_eq!(open(&text, "pw", &light()).err(), Some(Failure::AuthenticationFailed));
    }
}

#[test]
fn successive_seals_differ_in_salt_and_ciphertext() {
    let store = sample_store();
    let first = seal(&store, "pw", &light()).unwrap();
    let second = seal(&store, "pw", &light()).unwrap();
    assert_ne!(first, second);
    let first = decode_container(&first).unwrap();
    let second = decode_container(&second).unwrap();
    assert_ne!(first.salt().as_bytes(), second.salt().as_bytes());
    assert_ne!(first.ciphertext(), second.ciphertext());
    assert_eq!(first.ciphertext().len(), second.ciphertext().len());
}

#[test]
fn sealing_with_a_salt_puts_that_salt_into_the_container() {
    let store = small_store();
    let salt = Salt::from_bytes((100..116).collect()).unwrap();
    let sealed = seal_with_salt(&store, "pw", &light(), salt).unwrap();
    let container = decode_container(&sealed).unwrap();
    let expected: Vec<u8> = (100..116).collect();
    assert_eq!(container.salt().as_bytes(), &expected[..]);
    assert_eq!(container.ciphertext().len(), 37 + 40);
    assert!(open(&sealed, "pw", &light()).unwrap().equals(&store));
    assert_eq!(open(&sealed, "pW", &light()).err(), Some(Failure::AuthenticationFailed));

    let key = derive_key("pw", container.salt(), &light()).unwrap();
    let expected_key = orion::kdf::derive_key(
        &orion::kdf::Password::from_slice(b"pw").unwrap(),
        &orion::kdf::Salt::from_slice(&expected).unwrap(),
        3,
        8,
        32,
    )
    .unwrap();
    assert_eq!(key.as_bytes(), expected_key.unprotected_as_bytes());
    let plaintext = orion::aead::open(&expected_key, container.ciphertext()).unwrap();
    assert_eq!(plaintext, br#"{"a":{"w":"0","x":"1"},"b":{"y":"2"}}"#.to_vec());
}

#[test]
fn sealing_twice_with_equal_salts_still_differs_in_the_nonce() {
    let store = small_store();
    let first = Salt::from_bytes(vec![7; 16]).unwrap();
    let second = Salt::from_bytes(vec![7; 16]).unwrap();
    let first = decode_container(&seal_with_salt(&store, "pw", &light(), first).unwrap()).unwrap();
    let second =
        decode_container(&seal_with_salt(&store, "pw", &light(), second).unwrap()).unwrap();
    assert_eq!(first.salt().as_bytes(), second.salt().as_bytes());
    assert_ne!(&first.ciphertext()[..24], &second.ciphertext()[..24]);
    assert_ne!(first.ciphertext(), second.ciphertext());
}

#[test]
fn sealing_with_a_salt_fails_as_sealing_does() {
    let salt = || Salt::from_bytes(vec![1; 16]).unwrap();
    assert_eq!(
        seal_with_salt(&sample_store(), "", &light(), salt()).err(),
        Some(Failure::KeyDerivationFailed)
    );
    assert_eq!(
        seal_with_salt(&sample_store(), "pw", &CostParams::new(2), salt()).err(),
        Some(Failure::KeyDerivationFailed)
    );
}

#[test]
fn generated_salts_have_sixteen_bytes_and_differ() {
    let first = Salt::generate();
    let second = Salt::generate();
    assert_eq!(first.as_bytes().len(), 16);
    assert_eq!(second.as_bytes().len(), 16);
    assert_ne!(first.as_bytes(), second.as_bytes());
}

#[test]
fn sealed_text_is_printable_base64() {
    let sealed = seal(&sample_store(), "pw", &light()).unwrap();
    assert!(!sealed.is_empty());
    assert_eq!(sealed.len() % 4, 0);
    assert!(sealed
        .iter()
        .all(|b| b.is_ascii_alphanumeric() || *b == b'+' || *b == b'/' || *b == b'='));
}

#[test]
fn container_text_is_base64_of_a_json_pair() {
    let salt: Vec<u8> = (0..16).collect();
    let container = Container::from_parts(salt, vec![1, 2, 3, 250]).unwrap();
    assert_eq!(encode_container(&container), CONTAINER_TEXT.as_bytes().to_vec());
}

#[test]
fn container_is_read_from_its_text() {
    let container = decode_container(CONTAINER_TEXT.as_bytes()).unwrap();
    let salt: Vec<u8> = (0..16).collect();
    assert_eq!(container.salt().as_bytes(), &salt[..]);
    assert_eq!(container.ciphertext(), &[1u8, 2, 3, 250][..]);
}

#[test]
fn json_with_white_space_is_a_container_too() {
    let json = " [ [0,1,2,3,4,5,6,7,8,9,10,11,12,13,14,15] ,\n [ 7 ] ] ";
    let text = base64::engine::general_purpose::STANDARD.encode(json);
    let container = decode_container(text.as_bytes()).unwrap();
    assert_eq!(container.ciphertext(), &[7u8][..]);
}

#[test]
fn text_that_is_not_base64_is_malformed() {
    for text in ["", "not base64!", "W1sxLDIsM10sWzRdXQ=", "W1sxLDIsM10sWzRdXQ==\n"] {
        assert_eq!(
            decode_container(text.as_bytes()).err(),
            Some(Failure::MalformedContainer)
        );
        assert_eq!(
            open(text.as_bytes(), "pw", &light()).err(),
            Some(Failure::MalformedContainer)
        );
    }
}

#[test]
fn base64_of_something_else_is_malformed() {
    // A JSON object, and a pair whose first part is too short for a salt.
    for text in ["eyJub3QiOiJhIHBhaXIifQ==", "W1sxLDIsM10sWzRdXQ=="] {
        assert_eq!(
            decode_container(text.as_bytes()).err(),
            Some(Failure::MalformedContainer)
        );
        assert_eq!(
            open(text.as_bytes(), "pw", &light()).err(),
            Some(Failure::MalformedContainer)
        );
    }
}

#[test]
fn salt_must_have_sixteen_bytes() {
    assert_eq!(Salt::from_bytes(vec![0; 15]).err(), Some(Failure::MalformedContainer));
    assert_eq!(Salt::from_bytes(vec![0; 17]).err(), Some(Failure::MalformedContainer));
    assert_eq!(Salt::from_bytes(vec![]).err(), Some(Failure::MalformedContainer));
    assert_eq!(Salt::from_bytes(vec![5; 16]).unwrap().as_bytes(), &[5u8; 16][..]);
    assert_eq!(
        Container::from_parts(vec![0; 8], vec![1, 2, 3]).err(),
        Some(Failure::MalformedContainer)
    );
}

#[test]
fn key_must_have_thirty_two_bytes() {
    assert_eq!(
        DerivedKey::from_bytes(vec![0; 31]).err(),
        Some(Failure::KeyDerivationFailed)
    );
    assert_eq!(
        DerivedKey::from_bytes(vec![0; 33]).err(),
        Some(Failure::KeyDerivationFailed)
    );
    assert_eq!(DerivedKey::from_bytes(vec![9; 32]).unwrap().as_bytes(), &[9u8; 32][..]);
}

#[test]
fn derived_key_depends_on_password_salt_and_cost_only() {
    let salt = Salt::from_bytes(vec![3; 16]).unwrap();
    let other_salt = Salt::from_bytes(vec![4; 16]).unwrap();
    let key = derive_key("password", &salt, &light()).unwrap();
    assert_eq!(key.as_bytes().len(), 32);
    assert_ne!(&key.as_bytes()[..8], &b"password"[..]);
    assert_ne!(&key.as_bytes()[..16], salt.as_bytes());
    assert_eq!(
        derive_key("password", &salt, &light()).unwrap().as_bytes(),
        key.as_bytes()
    );
    assert_ne!(
        derive_key("passwore", &salt, &light()).unwrap().as_bytes(),
        key.as_bytes()
    );
    assert_ne!(
        derive_key("password", &other_salt, &light()).unwrap().as_bytes(),
        key.as_bytes()
    );
    let slower = CostParams { iterations: 4, memory: 8 };
    assert_ne!(
        derive_key("password", &salt, &slower).unwrap().as_bytes(),
        key.as_bytes()
    );
}

#[test]
fn derived_key_is_the_argon2i_key() {
    let salt = Salt::from_bytes(vec![3; 16]).unwrap();
    let key = derive_key("password", &salt, &light()).unwrap();
    let expected = orion::kdf::derive_key(
        &orion::kdf::Password::from_slice(b"password").unwrap(),
        &orion::kdf::Salt::from_slice(&[3; 16]).unwrap(),
        3,
        8,
        32,
    )
    .unwrap();
    assert_eq!(key.as_bytes(), expected.unprotected_as_bytes());
}

#[test]
fn key_derivation_rejects_empty_password_and_low_cost() {
    let salt = Salt::from_bytes(vec![3; 16]).unwrap();
    assert_eq!(
        derive_key("", &salt, &light()).err(),
        Some(Failure::KeyDerivationFailed)
    );
    for params in [
        CostParams { iterations: 2, memory: 8 },
        CostParams { iterations: 0, memory: 8 },
        CostParams { iterations: 3, memory: 7 },
    ] {
        assert_eq!(
            derive_key("pw", &salt, &params).err(),
            Some(Failure::KeyDerivationFailed)
        );
        assert_eq!(
            seal(&sample_store(), "pw", &params).err(),
            Some(Failure::KeyDerivationFailed)
        );
        assert_eq!(
            open(CONTAINER_TEXT.as_bytes(), "pw", &params).err(),
            Some(Failure::KeyDerivationFailed)
        );
    }
    assert_eq!(
        seal(&sample_store(), "", &light()).err(),
        Some(Failure::KeyDerivationFailed)
    );
}

#[test]
fn an_empty_password_is_a_wrong_password() {
    let sealed = seal(&sample_store(), "right", &light()).unwrap();
    assert_eq!(open(&sealed, "", &light()).err(), Some(Failure::AuthenticationFailed));
    assert_eq!(
        open(CONTAINER_TEXT.as_bytes(), "", &light()).err(),
        Some(Failure::AuthenticationFailed)
    );
    assert_eq!(refuse(&light()), Failure::AuthenticationFailed);
    assert_eq!(refuse(&CostParams::new(3)), Failure::AuthenticationFailed);
    assert_eq!(
        refuse(&CostParams { iterations: 2, memory: 8 }),
        Failure::KeyDerivationFailed
    );
    assert_eq!(
        refuse(&CostParams { iterations: 3, memory: 7 }),
        Failure::KeyDerivationFailed
    );
    assert_eq!(
        open(&sealed, "", &CostParams { iterations: 2, memory: 8 }).err(),
        Some(Failure::KeyDerivationFailed)
    );
}

#[test]
fn sealed_container_has_a_salt_and_a_ciphertext_that_is_not_empty() {
    let sealed = seal(&Store::new(), "pw", &light()).unwrap();
    let container = decode_container(&sealed).unwrap();
    assert_eq!(container.salt().as_bytes().len(), 16);
    // The JSON text of no accounts is `{}`.
    assert_eq!(container.ciphertext().len(), 2 + 40);
    let text = String::from_utf8(sealed).unwrap();
    assert!(!text.contains("pw"));
}

#[test]
fn payload_is_json_with_sorted_keys() {
    let sealed = seal(&small_store(), "pw", &light()).unwrap();
    let container = decode_container(&sealed).unwrap();
    let key = derive_key("pw", container.salt(), &light()).unwrap();
    let key = orion::aead::SecretKey::from_slice(key.as_bytes()).unwrap();
    let plaintext = orion::aead::open(&key, container.ciphertext()).unwrap();
    assert_eq!(
        String::from_utf8(plaintext).unwrap(),
        r#"{"a":{"w":"0","x":"1"},"b":{"y":"2"}}"#
    );
    assert_eq!(container.ciphertext().len(), 37 + 40);
}

#[test]
fn container_sealed_elsewhere_opens() {
    let salt = orion::kdf::Salt::from_slice(&[9u8; 16]).unwrap();
    let password = orion::kdf::Password::from_slice(b"pw").unwrap();
    let key = orion::kdf::derive_key(&password, &salt, 3, 8, 32).unwrap();
    let json = br#"{ "b": {"y": "2"}, "a": {"x": "1", "w": "0"}, "b": {"y": "2"} }"#;
    let ciphertext = orion::aead::seal(&key, json).unwrap();
    let pair = serde_json::to_vec(&(vec![9u8; 16], ciphertext)).unwrap();
    let text = base64::engine::general_purpose::STANDARD.encode(pair);
    let store = open(text.as_bytes(), "pw", &light()).unwrap();
    assert!(store.equals(&small_store()));
}

#[test]
fn authentic_payload_of_the_wrong_shape_is_malformed() {
    let key = DerivedKey::from_bytes(vec![1; 32]).unwrap();
    let orion_key = orion::aead::SecretKey::from_slice(&[1; 32]).unwrap();
    for json in [
        &br#"["a list"]"#[..],
        &br#"{"account": "not a map"}"#[..],
        &br#"{"account": {"field": 1}}"#[..],
        &br#"{"account": {"field": "v"}"#[..],
        &b"\xff"[..],
    ] {
        let ciphertext = orion::aead::seal(&orion_key, json).unwrap();
        let container = Container::from_parts(vec![0; 16], ciphertext).unwrap();
        assert_eq!(
            open_container(&container, &key).err(),
            Some(Failure::MalformedContainer)
        );
    }
    let ciphertext = orion::aead::seal(&orion_key, br#"{"account": {"field": "v"}}"#).unwrap();
    let container = Container::from_parts(vec![0; 16], ciphertext).unwrap();
    let store = open_container(&container, &key).unwrap();
    assert_eq!(store.get("account", "field"), Ok(&String::from("v")));
}
