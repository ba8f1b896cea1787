use p384::elliptic_curve::sec1::ToEncodedPoint;
use coset::{CborSerializable, TaggedCborSerializable};
use p384::ecdsa::signature::Verifier;
use regl::attesters::cca::utils::crypto::{
    build_rak_cose_key, compute_hash, is_supported_hash_alg, load_p384_jwk, sign_cose_sign1,
    P384SigningKey,
};

fn test_iak_jwk() -> &'static str {
    r#"{
        "crv": "P-384",
        "d": "isCQyZWGn2GsE1jwKwIaJqtus4YgOsc1186YVVOLkfdMRLDVgCQ--3maKT3LqgiZ",
        "kty": "EC",
        "x": "IShnxS4rlQiwpCCpBWDzlNLfqiG911FP8akBr-fh94uxHU5m-Kijivp2r2oxxN6M",
        "y": "hM4tr8mWQli1P61xh3T0ViDREbF26DGOEYfbAjWjGNN7pZf-6A4OTHYqEryz6m7U"
    }"#
}

// ---------------------------------------------------------------------------
// is_supported_hash_alg
// ---------------------------------------------------------------------------

#[test]
fn supported_hash_alg_accepts_sha256_sha384_sha512() {
    assert!(is_supported_hash_alg("sha-256"));
    assert!(is_supported_hash_alg("sha-384"));
    assert!(is_supported_hash_alg("sha-512"));
}

#[test]
fn supported_hash_alg_rejects_unknown() {
    assert!(!is_supported_hash_alg("md5"));
    assert!(!is_supported_hash_alg("sha-1"));
    assert!(!is_supported_hash_alg("SHA-256"));
    assert!(!is_supported_hash_alg(""));
    assert!(!is_supported_hash_alg("sha384"));
}

// ---------------------------------------------------------------------------
// compute_hash
// ---------------------------------------------------------------------------

#[test]
fn compute_hash_sha256_produces_32_bytes() {
    let hash = compute_hash(b"hello", "sha-256").unwrap();
    assert_eq!(hash.len(), 32);
}

#[test]
fn compute_hash_sha384_produces_48_bytes() {
    let hash = compute_hash(b"hello", "sha-384").unwrap();
    assert_eq!(hash.len(), 48);
}

#[test]
fn compute_hash_sha512_produces_64_bytes() {
    let hash = compute_hash(b"hello", "sha-512").unwrap();
    assert_eq!(hash.len(), 64);
}

#[test]
fn compute_hash_is_deterministic() {
    let a = compute_hash(b"same input", "sha-256").unwrap();
    let b = compute_hash(b"same input", "sha-256").unwrap();
    assert_eq!(a, b);
}

#[test]
fn compute_hash_different_inputs_differ() {
    let a = compute_hash(b"input A", "sha-256").unwrap();
    let b = compute_hash(b"input B", "sha-256").unwrap();
    assert_ne!(a, b);
}

#[test]
fn compute_hash_unknown_algorithm_returns_error() {
    let err = compute_hash(b"data", "md5").unwrap_err();
    assert!(err.to_string().contains("unsupported hash algorithm"));
}

#[test]
fn compute_hash_gives_the_known_digests() {
    let h = compute_hash(b"hello", "sha-256").unwrap();
    let hex: String = h.iter().map(|b| format!("{b:02x}")).collect();
    assert_eq!(hex, "2cf24dba5fb0a30e26e83b2ac5b9e29e1b161e5c1fa7425e73043362938b9824");
    let h = compute_hash(b"", "sha-384").unwrap();
    let hex: String = h.iter().map(|b| format!("{b:02x}")).collect();
    assert_eq!(
        hex,
        "38b060a751ac96384cd9327eb1b1e36a21fdb71114be07434c0cc7bf63f6e1da274edebfe76f65fbd51ad2f14898b95b"
    );
    let err = compute_hash(b"x", "sha-1").unwrap_err();
    assert_eq!(
        err.to_string(),
        "unsupported hash algorithm 'sha-1' for cca-realm-public-key-hash-algo-id; expected sha-256, sha-384, or sha-512"
    );
}

// ---------------------------------------------------------------------------
// sign_cose_sign1
// ---------------------------------------------------------------------------

#[test]
fn sign_cose_sign1_produces_non_empty_output() {
    let key = P384SigningKey::random();
    let payload = b"test payload for signing";
    let signed = sign_cose_sign1(payload, &key).unwrap();
    assert!(!signed.is_empty());
}

#[test]
fn sign_cose_sign1_is_deterministic() {
    let key = P384SigningKey::random();
    let payload = b"deterministic test";
    let sig1 = sign_cose_sign1(payload, &key).unwrap();
    let sig2 = sign_cose_sign1(payload, &key).unwrap();
    assert_eq!(sig1, sig2);
}

#[test]
fn sign_cose_sign1_different_payloads_differ() {
    let key = P384SigningKey::random();
    let sig_a = sign_cose_sign1(b"payload A", &key).unwrap();
    let sig_b = sign_cose_sign1(b"payload B", &key).unwrap();
    assert_ne!(sig_a, sig_b);
}

#[test]
fn sign_cose_sign1_signature_verifies_with_the_public_key() {
    let key = P384SigningKey::random();
    let signed = sign_cose_sign1(b"to be verified", &key).unwrap();
    let cose = coset::CoseSign1::from_tagged_slice(&signed).unwrap();
    assert_eq!(cose.payload.as_deref(), Some(&b"to be verified"[..]));
    assert_eq!(
        cose.protected.header.alg,
        Some(coset::RegisteredLabelWithPrivate::Assigned(coset::iana::Algorithm::ES384))
    );
    let vk = p384::ecdsa::VerifyingKey::from_sec1_bytes(key.public_point()).unwrap();
    let sig = p384::ecdsa::Signature::from_slice(&cose.signature).unwrap();
    let tbs = cose.tbs_data(b"");
    assert!(vk.verify(&tbs, &sig).is_ok());
}

// ---------------------------------------------------------------------------
// build_rak_cose_key
// ---------------------------------------------------------------------------

#[test]
fn build_rak_cose_key_produces_cbor() {
    let key = P384SigningKey::random();
    let cose_key_bytes = build_rak_cose_key(&key).unwrap();
    assert!(!cose_key_bytes.is_empty());
}

#[test]
fn build_rak_cose_key_is_deterministic() {
    let key = P384SigningKey::random();
    let k1 = build_rak_cose_key(&key).unwrap();
    let k2 = build_rak_cose_key(&key).unwrap();
    assert_eq!(k1, k2);
}

#[test]
fn build_rak_cose_key_holds_the_public_coordinates() {
    let key = P384SigningKey::random();
    let point = key.public_point().clone();
    assert_eq!(point.len(), 97);
    assert_eq!(point[0], 4);
    let cose_key = coset::CoseKey::from_slice(&build_rak_cose_key(&key).unwrap()).unwrap();
    assert_eq!(cose_key.kty, coset::KeyType::Assigned(coset::iana::KeyType::EC2));
    let params: Vec<(i64, Vec<u8>)> = cose_key
        .params
        .iter()
        .filter_map(|(l, v)| match (l, v) {
            (coset::Label::Int(i), ciborium::Value::Bytes(b)) => Some((*i, b.clone())),
            _ => None,
        })
        .collect();
    assert_eq!(params, vec![(-2, point[1..49].to_vec()), (-3, point[49..97].to_vec())]);
}

// ---------------------------------------------------------------------------
// load_p384_jwk
// ---------------------------------------------------------------------------

#[test]
fn load_p384_jwk_valid_key_succeeds() {
    let key = load_p384_jwk(test_iak_jwk(), "IAK");
    assert!(key.is_ok(), "expected Ok, got {:?}", key.err());
}

#[test]
fn load_p384_jwk_invalid_json_returns_error() {
    let err = load_p384_jwk("not-json", "IAK").err().unwrap();
    assert!(err.to_string().contains("parsing IAK JWK"));
}

#[test]
fn load_p384_jwk_label_appears_in_error() {
    let err = load_p384_jwk("not-json", "RAK").err().unwrap();
    assert!(err.to_string().contains("RAK"));
}

#[test]
fn load_p384_jwk_gives_the_key_of_the_jwk() {
    let key = load_p384_jwk(test_iak_jwk(), "IAK").unwrap();
    let jwk: p384::elliptic_curve::JwkEcKey = test_iak_jwk().parse().unwrap();
    let expected = p384::PublicKey::from_jwk(&jwk).unwrap().to_encoded_point(false);
    assert_eq!(key.public_point().as_slice(), expected.as_bytes());
}

#[test]
fn random_keys_have_uncompressed_public_points() {
    let key = P384SigningKey::random();
    let point = key.public_point();
    assert_eq!(point.len(), 97);
    assert_eq!(point[0], 0x04);
    assert!(build_rak_cose_key(&key).is_ok());
}

fn int_of(v: &ciborium::Value) -> i128 {
    match v {
        ciborium::Value::Integer(i) => i128::from(*i),
        other => panic!("expected an integer, got {other:?}"),
    }
}

#[test]
fn the_rak_cose_key_is_the_five_entry_ec2_map() {
    let key = load_p384_jwk(test_iak_jwk(), "RAK").unwrap();
    let point = key.public_point().clone();
    assert_eq!(point.len(), 97);
    assert_eq!(point[0], 0x04);
    let bytes = build_rak_cose_key(&key).unwrap();
    let value: ciborium::Value = ciborium::from_reader(bytes.as_slice()).unwrap();
    let ciborium::Value::Map(entries) = value else { panic!("expected a map") };
    assert_eq!(entries.len(), 5);
    let keys: Vec<i128> = entries.iter().map(|(k, _)| int_of(k)).collect();
    assert_eq!(keys, vec![1, 3, -1, -2, -3]);
    assert_eq!(int_of(&entries[0].1), 2);
    assert_eq!(int_of(&entries[1].1), -35);
    assert_eq!(int_of(&entries[2].1), 2);
    assert_eq!(entries[3].1, ciborium::Value::Bytes(point[1..49].to_vec()));
    assert_eq!(entries[4].1, ciborium::Value::Bytes(point[49..97].to_vec()));
}

#[test]
fn a_cose_sign1_is_tag_18_with_the_es384_header_and_a_96_byte_signature() {
    let key = P384SigningKey::random();
    let signed = sign_cose_sign1(b"payload", &key).unwrap();
    let value: ciborium::Value = ciborium::from_reader(signed.as_slice()).unwrap();
    let ciborium::Value::Tag(18, inner) = value else { panic!("expected tag 18") };
    let ciborium::Value::Array(items) = *inner else { panic!("expected an array") };
    assert_eq!(items.len(), 4);
    assert_eq!(items[0], ciborium::Value::Bytes(vec![0xa1, 0x01, 0x38, 0x22]));
    assert_eq!(items[1], ciborium::Value::Map(vec![]));
    assert_eq!(items[2], ciborium::Value::Bytes(b"payload".to_vec()));
    let ciborium::Value::Bytes(sig) = &items[3] else { panic!("expected a byte string") };
    assert_eq!(sig.len(), 96);
}
