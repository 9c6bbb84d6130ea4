use std::collections::BTreeMap;

use frost_ffi::dkg::check_dkg_params;
use frost_ffi::error::{
    ERROR_CRYPTO_ERROR, ERROR_INVALID_PARAMETER, ERROR_INVALID_UTF8, ERROR_NULL_POINTER,
    ERROR_SERIALIZATION, SUCCESS,
};
use frost_ffi::hex_codec::decode_message_hash;
use frost_ffi::{
    frost_dkg_round1_generate, frost_dkg_round2_generate_shares, frost_dkg_round3_finalize,
    frost_get_version, frost_sign_aggregate, frost_sign_round1_nonces, frost_sign_round2_signature,
    status_code, FrostError,
};
use frost_secp256k1_tr as frost;

#[test]
fn test_version() {
    let version = frost_get_version();
    assert!(!version.is_empty());
    assert!(version.contains("frost-real"));
    assert_eq!(version, "0.2.0-frost-real");
}

#[test]
fn test_dkg_round1() {
    let result = frost_dkg_round1_generate(1, 3, 2);
    assert_eq!(status_code(&result), SUCCESS);
    let out = result.unwrap();
    assert!(!out.commitment_json.is_empty());
    assert!(!out.secret_package_json.is_empty());
}

#[test]
fn error_codes_match_the_c_interface() {
    assert_eq!(SUCCESS, 0);
    assert_eq!(FrostError::NullPointer.code(), ERROR_NULL_POINTER);
    assert_eq!(FrostError::InvalidUtf8.code(), ERROR_INVALID_UTF8);
    assert_eq!(FrostError::Serialization.code(), ERROR_SERIALIZATION);
    assert_eq!(FrostError::CryptoError.code(), ERROR_CRYPTO_ERROR);
    assert_eq!(FrostError::InvalidParameter.code(), ERROR_INVALID_PARAMETER);
    assert_eq!(
        [ERROR_NULL_POINTER, ERROR_INVALID_UTF8, ERROR_SERIALIZATION, ERROR_CRYPTO_ERROR, ERROR_INVALID_PARAMETER],
        [-1, -2, -3, -4, -5]
    );
    let failed: Result<(), FrostError> = Err(FrostError::CryptoError);
    assert_eq!(status_code(&failed), -4);
}

#[test]
fn round1_rejects_out_of_range_parameters() {
    for (id, max, min) in [(0u16, 3u16, 2u16), (1, 0, 0), (1, 3, 0), (1, 2, 3), (0, 0, 0)] {
        assert!(!check_dkg_params(id, max, min));
        let r = frost_dkg_round1_generate(id, max, min);
        assert_eq!(r.err(), Some(FrostError::InvalidParameter));
    }
    assert!(check_dkg_params(1, 3, 2));
    assert!(check_dkg_params(5, 3, 3));
}

#[test]
fn round1_threshold_of_one_is_refused_by_frost() {
    let r = frost_dkg_round1_generate(1, 3, 1);
    assert_eq!(r.err(), Some(FrostError::CryptoError));
    let r = frost_dkg_round1_generate(1, 1, 1);
    assert_eq!(status_code(&r), ERROR_CRYPTO_ERROR);
}

#[test]
fn round1_accepts_threshold_equal_to_signers() {
    let r = frost_dkg_round1_generate(2, 2, 2);
    assert_eq!(status_code(&r), SUCCESS);
}

#[test]
fn malformed_json_gives_serialization_errors() {
    assert_eq!(frost_dkg_round2_generate_shares("not json", "{}").err(), Some(FrostError::Serialization));
    let r1 = frost_dkg_round1_generate(1, 3, 2).unwrap();
    assert_eq!(
        frost_dkg_round2_generate_shares(&r1.secret_package_json, "[1,2").err(),
        Some(FrostError::Serialization)
    );
    assert_eq!(frost_dkg_round3_finalize("{}", "{}", "{}").err(), Some(FrostError::Serialization));
    assert_eq!(frost_sign_round1_nonces("{\"a\":1}").err(), Some(FrostError::Serialization));
    assert_eq!(
        frost_sign_round2_signature("x", "y", "z", "00").err(),
        Some(FrostError::Serialization)
    );
    assert_eq!(frost_sign_aggregate("x", "y", "00", "z").err(), Some(FrostError::Serialization));
}

#[test]
fn round2_with_too_few_packages_is_a_crypto_error() {
    let r1 = frost_dkg_round1_generate(1, 3, 2).unwrap();
    let r = frost_dkg_round2_generate_shares(&r1.secret_package_json, "{}");
    assert_eq!(r.err(), Some(FrostError::CryptoError));
}

#[test]
fn message_hash_must_be_32_bytes_of_hex() {
    let good = "00112233445566778899aabbccddeeff00112233445566778899AABBCCDDEEFF";
    let bytes = decode_message_hash(good).unwrap();
    assert_eq!(bytes.len(), 32);
    assert_eq!(bytes[0], 0x00);
    assert_eq!(bytes[10], 0xaa);
    assert_eq!(bytes[31], 0xff);
    assert_eq!(bytes[26], 0xaa);
    // 31 bytes
    assert_eq!(decode_message_hash(&good[2..]).err(), Some(FrostError::InvalidParameter));
    // odd length
    assert_eq!(decode_message_hash(&good[1..]).err(), Some(FrostError::InvalidParameter));
    // not hex
    let bad = good.replace('a', "g");
    assert_eq!(decode_message_hash(&bad).err(), Some(FrostError::InvalidParameter));
    assert_eq!(decode_message_hash("").err(), Some(FrostError::InvalidParameter));
}

fn map_json<T: frost::serde::Serialize + frost::serde::de::DeserializeOwned>(entries: Vec<(u16, &str)>) -> String {
    let mut map: BTreeMap<frost::Identifier, T> = BTreeMap::new();
    for (id, json) in entries {
        let value: T = serde_json::from_str(json).unwrap();
        map.insert(frost::Identifier::try_from(id).unwrap(), value);
    }
    serde_json::to_string(&map).unwrap()
}

fn entry_for(map_json: &str, id: u16) -> String {
    let map: serde_json::Value = serde_json::from_str(map_json).unwrap();
    let key = serde_json::to_value(frost::Identifier::try_from(id).unwrap()).unwrap();
    let key = key.as_str().unwrap().to_string();
    serde_json::to_string(&map[key.as_str()]).unwrap()
}

fn is_lower_hex(s: &str) -> bool {
    s.chars().all(|c| c.is_ascii_digit() || ('a'..='f').contains(&c))
}

#[test]
fn full_dkg_and_threshold_signature() {
    let n: u16 = 3;
    let t: u16 = 2;
    let round1: Vec<_> = (1..=n).map(|i| frost_dkg_round1_generate(i, n, t).unwrap()).collect();

    // Round 2: each participant gets the others' commitments.
    let mut round2 = Vec::new();
    for i in 1..=n {
        // Odd participants pass every commitment, their own included; even
        // ones pass only the others'.
        let entries: Vec<(u16, &str)> = (1..=n)
            .filter(|j| *j != i || i % 2 == 1)
            .map(|j| (j, round1[(j - 1) as usize].commitment_json.as_str()))
            .collect();
        let commitments = map_json::<frost::keys::dkg::round1::Package>(entries);
        let out = frost_dkg_round2_generate_shares(&round1[(i - 1) as usize].secret_package_json, &commitments)
            .unwrap();
        round2.push((commitments, out));
    }

    // Round 3: each participant gets the share addressed to it by each other one.
    let mut finals = Vec::new();
    for i in 1..=n {
        let received: Vec<(u16, String)> = (1..=n)
            .filter(|j| *j != i)
            .map(|j| (j, entry_for(&round2[(j - 1) as usize].1.shares_json, i)))
            .collect();
        let received_refs: Vec<(u16, &str)> = received.iter().map(|(j, s)| (*j, s.as_str())).collect();
        let shares = map_json::<frost::keys::dkg::round2::Package>(received_refs);
        let (commitments, out2) = &round2[(i - 1) as usize];
        let out = frost_dkg_round3_finalize(&out2.round2_secret_json, commitments, &shares).unwrap();
        assert_eq!(out.group_pubkey_hex.len(), 66);
        assert!(is_lower_hex(&out.group_pubkey_hex));
        finals.push(out);
    }
    assert_eq!(finals[0].group_pubkey_hex, finals[1].group_pubkey_hex);
    assert_eq!(finals[1].group_pubkey_hex, finals[2].group_pubkey_hex);

    // Signing by participants 1 and 3.
    let message_hex = "4242424242424242424242424242424242424242424242424242424242424242";
    let signers = [1u16, 3u16];
    let nonces: Vec<_> = signers
        .iter()
        .map(|i| frost_sign_round1_nonces(&finals[(*i - 1) as usize].key_package_json).unwrap())
        .collect();
    let commitment_entries: Vec<(u16, &str)> = signers
        .iter()
        .zip(nonces.iter())
        .map(|(i, o)| (*i, o.nonce_commitment_json.as_str()))
        .collect();
    let commitments = map_json::<frost::round1::SigningCommitments>(commitment_entries);

    // A message hash of the wrong size is refused before any signing.
    assert_eq!(
        frost_sign_round2_signature(
            &finals[0].key_package_json,
            &nonces[0].nonce_secret_json,
            &commitments,
            "4242"
        )
        .err(),
        Some(FrostError::InvalidParameter)
    );

    // Signing draws nothing: the same inputs give the same share.
    let again = frost_sign_round2_signature(
        &finals[0].key_package_json,
        &nonces[0].nonce_secret_json,
        &commitments,
        message_hex,
    )
    .unwrap();

    let shares: Vec<String> = signers
        .iter()
        .zip(nonces.iter())
        .map(|(i, o)| {
            frost_sign_round2_signature(
                &finals[(*i - 1) as usize].key_package_json,
                &o.nonce_secret_json,
                &commitments,
                message_hex,
            )
            .unwrap()
        })
        .collect();
    assert_eq!(again, shares[0]);
    let share_entries: Vec<(u16, &str)> = signers.iter().zip(shares.iter()).map(|(i, s)| (*i, s.as_str())).collect();
    let shares_json = map_json::<frost::round2::SignatureShare>(share_entries);

    assert_eq!(
        frost_sign_aggregate(&shares_json, &commitments, "zz", &finals[0].pubkey_package_json).err(),
        Some(FrostError::InvalidParameter)
    );

    let signature_hex =
        frost_sign_aggregate(&shares_json, &commitments, message_hex, &finals[0].pubkey_package_json).unwrap();
    assert_eq!(signature_hex.len(), 128);
    let again =
        frost_sign_aggregate(&shares_json, &commitments, message_hex, &finals[2].pubkey_package_json).unwrap();
    assert_eq!(again, signature_hex);
    assert!(is_lower_hex(&signature_hex));

    // The signature verifies under the group key.
    let key_bytes = hex::decode(&finals[0].group_pubkey_hex).unwrap();
    let pk: frost::keys::PublicKeyPackage = serde_json::from_str(&finals[0].pubkey_package_json).unwrap();
    assert_eq!(pk.verifying_key().serialize().unwrap(), key_bytes);
    let key = frost::VerifyingKey::deserialize(&key_bytes).unwrap();
    let sig = frost::Signature::deserialize(&hex::decode(&signature_hex).unwrap()).unwrap();
    let message = hex::decode(message_hex).unwrap();
    assert!(key.verify(&message, &sig).is_ok());

    // Aggregating against another message fails.
    let other = "4343434343434343434343434343434343434343434343434343434343434343";
    assert_eq!(
        frost_sign_aggregate(&shares_json, &commitments, other, &finals[0].pubkey_package_json).err(),
        Some(FrostError::CryptoError)
    );
}

#[test]
fn nonce_commitment_is_that_of_the_returned_nonces() {
    let n: u16 = 2;
    let round1: Vec<_> = (1..=n).map(|i| frost_dkg_round1_generate(i, n, 2).unwrap()).collect();
    let all: Vec<(u16, &str)> = (1..=n).map(|j| (j, round1[(j - 1) as usize].commitment_json.as_str())).collect();
    let commitments = map_json::<frost::keys::dkg::round1::Package>(all);
    let round2: Vec<_> = (1..=n)
        .map(|i| frost_dkg_round2_generate_shares(&round1[(i - 1) as usize].secret_package_json, &commitments).unwrap())
        .collect();
    let shares_for_1 = map_json::<frost::keys::dkg::round2::Package>(vec![(2, entry_for(&round2[1].shares_json, 1).as_str())]);
    let out = frost_dkg_round3_finalize(&round2[0].round2_secret_json, &commitments, &shares_for_1).unwrap();

    let r = frost_sign_round1_nonces(&out.key_package_json).unwrap();
    let nonces: frost::round1::SigningNonces = serde_json::from_str(&r.nonce_secret_json).unwrap();
    let published: frost::round1::SigningCommitments = serde_json::from_str(&r.nonce_commitment_json).unwrap();
    assert_eq!(*nonces.commitments(), published);
    assert_ne!(r.nonce_commitment_json, r.nonce_secret_json);
}

#[test]
fn round1_secret_records_participant_and_counts() {
    let out = frost_dkg_round1_generate(3, 5, 4).unwrap();
    let secret: frost::keys::dkg::round1::SecretPackage = serde_json::from_str(&out.secret_package_json).unwrap();
    assert_eq!(*secret.identifier(), frost::Identifier::try_from(3u16).unwrap());
    assert_eq!(*secret.min_signers(), 4);
    assert_eq!(*secret.max_signers(), 5);
    let package: frost::keys::dkg::round1::Package = serde_json::from_str(&out.commitment_json).unwrap();
    assert_eq!(package.commitment().serialize().unwrap().len(), 4);
}

fn with_field(json: &str, field: &str, value: serde_json::Value) -> String {
    let mut v: serde_json::Value = serde_json::from_str(json).unwrap();
    v[field] = value;
    serde_json::to_string(&v).unwrap()
}

#[test]
fn round2_refuses_degenerate_secret_packages_without_panicking() {
    let r1 = frost_dkg_round1_generate(1, 3, 2).unwrap();
    let no_coefficients = with_field(&r1.secret_package_json, "coefficients", serde_json::Value::Array(Vec::new()));
    let no_coefficients = with_field(&no_coefficients, "max_signers", serde_json::Value::from(1u16));
    assert_eq!(frost_dkg_round2_generate_shares(&no_coefficients, "{}").err(), Some(FrostError::CryptoError));
    let no_signers = with_field(&r1.secret_package_json, "max_signers", serde_json::Value::from(0u16));
    assert_eq!(frost_dkg_round2_generate_shares(&no_signers, "{}").err(), Some(FrostError::CryptoError));
}

#[test]
fn round3_refuses_a_secret_with_no_signers_without_panicking() {
    let n: u16 = 2;
    let round1: Vec<_> = (1..=n).map(|i| frost_dkg_round1_generate(i, n, 2).unwrap()).collect();
    let all: Vec<(u16, &str)> = (1..=n).map(|j| (j, round1[(j - 1) as usize].commitment_json.as_str())).collect();
    let commitments = map_json::<frost::keys::dkg::round1::Package>(all);
    let r2 = frost_dkg_round2_generate_shares(&round1[0].secret_package_json, &commitments).unwrap();
    let no_signers = with_field(&r2.round2_secret_json, "max_signers", serde_json::Value::from(0u16));
    assert_eq!(frost_dkg_round3_finalize(&no_signers, &commitments, "{}").err(), Some(FrostError::CryptoError));
}
