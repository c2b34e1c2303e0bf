use skynet::decode_registry_response;
use skynet::gen_keypair_from_seed;
use skynet::hash_data_key;
use skynet::hash_registry_entry;
use skynet::hex_encode;
use skynet::registry_lookup_query;
use skynet::registry_publish_body;
use skynet::sign_entry;
use skynet::verify_entry;
use skynet::EntryOptions;
use skynet::RegistryEntry;
use skynet::RegistryError;

fn sample_entry() -> RegistryEntry {
    RegistryEntry { data_key: "data".to_string(), data: b"hello world".to_vec(), revision: 0 }
}

fn sample_keypair() -> skynet::KeyPair {
    let seed: Vec<u8> = (0u8..64).collect();
    gen_keypair_from_seed(&seed)
}

fn json_byte_array(bytes: &[u8]) -> String {
    let items: Vec<String> = bytes.iter().map(|b| format!("{}", b)).collect();
    format!("[{}]", items.join(","))
}

#[test]
fn normalize_data_key_pins_the_digest() {
    let hashed = hash_data_key("data", false);
    assert_eq!(hashed.len(), 64);
    assert_eq!(hashed, "a035872d6af8639ede962dfe7536b0c150b590f3234a922fb7064cd11971b58e");
}

#[test]
fn normalize_data_key_is_deterministic_and_idempotent() {
    let once = hash_data_key("data", false);
    let again = hash_data_key("data", false);
    assert_eq!(once, again);
    let already = hash_data_key(&once, true);
    assert_eq!(already, once);
}

#[test]
fn entry_hash_separates_fields() {
    let entry = sample_entry();
    let hash = hash_registry_entry(&entry, false);
    assert_eq!(hash.len(), 32);
    assert_eq!(hash, hash_registry_entry(&sample_entry(), false));
    let mut other = sample_entry();
    other.revision = 1;
    assert_ne!(hash, hash_registry_entry(&other, false));
}

#[test]
fn sign_then_verify_succeeds() {
    let kp = sample_keypair();
    let entry = sample_entry();
    let signature = sign_entry(&entry, &kp.private_key, false);
    assert_eq!(signature.len(), 64);
    assert!(verify_entry(&entry, &kp.public_key, &signature, false));
}

#[test]
fn single_bit_mutations_break_verification() {
    let kp = sample_keypair();
    let entry = sample_entry();
    let signature = sign_entry(&entry, &kp.private_key, false);

    let mut data_flip = sample_entry();
    data_flip.data[0] ^= 1;
    assert!(!verify_entry(&data_flip, &kp.public_key, &signature, false));

    let mut revision_flip = sample_entry();
    revision_flip.revision ^= 1;
    assert!(!verify_entry(&revision_flip, &kp.public_key, &signature, false));

    let mut key_flip = sample_entry();
    let mut key_bytes = key_flip.data_key.into_bytes();
    key_bytes[0] ^= 1;
    key_flip.data_key = String::from_utf8(key_bytes).unwrap();
    assert!(!verify_entry(&key_flip, &kp.public_key, &signature, false));
}

#[test]
fn incremented_revision_fails_verification() {
    let kp = sample_keypair();
    let entry = sample_entry();
    let signature = sign_entry(&entry, &kp.private_key, false);
    let mut tampered = sample_entry();
    tampered.revision += 1;
    assert!(!verify_entry(&tampered, &kp.public_key, &signature, false));

    let data_hex = hex_encode(&tampered.data);
    let sig_hex = hex_encode(&signature);
    let fetched = decode_registry_response(
        &tampered.data_key,
        &data_hex,
        tampered.revision,
        &sig_hex,
        &kp.public_key,
        false,
    );
    assert!(matches!(fetched, Err(RegistryError::InvalidSignature)));
}

#[test]
fn publish_then_fetch_round_trip() {
    let (kp, _seed) = skynet::gen_keypair_and_seed(64);
    let entry = sample_entry();
    let signature = sign_entry(&entry, &kp.private_key, false);
    let body = registry_publish_body(&kp.public_key, &kp.private_key, &entry, false);
    assert!(body.contains(&json_byte_array(&signature)));

    let data_hex = hex_encode(&entry.data);
    let sig_hex = hex_encode(&signature);
    let fetched = decode_registry_response(
        &entry.data_key,
        &data_hex,
        entry.revision,
        &sig_hex,
        &kp.public_key,
        false,
    )
    .unwrap();
    assert_eq!(fetched.entry.data_key, entry.data_key);
    assert_eq!(fetched.entry.data, entry.data);
    assert_eq!(fetched.entry.revision, entry.revision);
    assert_eq!(fetched.signature, signature);
    assert!(verify_entry(&fetched.entry, &kp.public_key, &fetched.signature, false));
}

#[test]
fn wrong_public_key_fails_verification() {
    let kp = sample_keypair();
    let other = gen_keypair_from_seed(&[9u8; 64]);
    let entry = sample_entry();
    let signature = sign_entry(&entry, &kp.private_key, false);
    assert!(!verify_entry(&entry, &other.public_key, &signature, false));

    let fetched = decode_registry_response(
        &entry.data_key,
        &hex_encode(&entry.data),
        entry.revision,
        &hex_encode(&signature),
        &other.public_key,
        false,
    );
    assert!(matches!(fetched, Err(RegistryError::InvalidSignature)));
}

#[test]
fn bad_hex_is_a_portal_response_error() {
    let kp = sample_keypair();
    let bad_data = decode_registry_response("data", "zz", 0, "", &kp.public_key, false);
    match bad_data {
        Err(RegistryError::PortalResponse(text)) => assert_eq!(text, "zz"),
        other => panic!("{:?}", other),
    }
    let bad_signature = decode_registry_response("data", "68", 0, "0x", &kp.public_key, false);
    match bad_signature {
        Err(RegistryError::PortalResponse(text)) => assert_eq!(text, "0x"),
        other => panic!("{:?}", other),
    }
}

#[test]
fn short_signature_is_an_invalid_signature_error() {
    let kp = sample_keypair();
    let fetched = decode_registry_response("data", "68", 0, "abcd", &kp.public_key, false);
    assert!(matches!(fetched, Err(RegistryError::InvalidSignature)));
}

#[test]
fn lookup_query_carries_tagged_key_and_timeout() {
    let kp = sample_keypair();
    let query = registry_lookup_query(&kp.public_key, "data", false);
    assert_eq!(query.len(), 3);
    assert_eq!(query[0].0, "publickey");
    assert_eq!(query[0].1, format!("ed25519:{}", hex_encode(&kp.public_key)));
    assert_eq!(query[1].0, "datakey");
    assert_eq!(query[1].1, hash_data_key("data", false));
    assert_eq!(query[2].0, "timeout");
    assert_eq!(query[2].1, "5");
}

#[test]
fn publish_body_matches_the_wire_layout() {
    let kp = sample_keypair();
    let entry = RegistryEntry {
        data_key: "data".to_string(),
        data: b"hello world".to_vec(),
        revision: u64::MAX,
    };
    let signature = sign_entry(&entry, &kp.private_key, false);
    let body = registry_publish_body(&kp.public_key, &kp.private_key, &entry, false);
    let expected = format!(
        "{{\"data\":{},\"datakey\":\"{}\",\"publickey\":{{\"algorithm\":\"ed25519\",\"key\":{}}},\"revision\":{},\"signature\":{}}}",
        json_byte_array(&entry.data),
        hash_data_key("data", false),
        json_byte_array(&kp.public_key),
        entry.revision,
        json_byte_array(&signature),
    );
    assert_eq!(body, expected);
}

#[test]
fn publish_body_accepts_prehashed_keys() {
    let kp = sample_keypair();
    let hashed = hash_data_key("data", false);
    assert!(skynet::is_lower_hex_str(&hashed));
    let entry = RegistryEntry { data_key: hashed.clone(), data: vec![1, 2, 3], revision: 4 };
    let body = registry_publish_body(&kp.public_key, &kp.private_key, &entry, true);
    assert!(body.contains(&format!("\"datakey\":\"{}\"", hashed)));
}

#[test]
fn entry_options_defaults() {
    let opt = EntryOptions::default();
    assert_eq!(opt.endpoint_path, "/skynet/registry");
    assert!(opt.api_key.is_none());
    assert!(opt.custom_user_agent.is_none());
    assert!(!opt.hashed_data_key_hex);
}
