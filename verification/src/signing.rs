//! Threshold signing: nonce commitments, signature shares and their aggregate.
use vstd::prelude::*;
use crate::bindings::{
    aggregate_accepts, aggregate_shares, commit_nonces, hex_encode_bytes, is_key_package_json,
    is_public_key_package_json, is_signature_share_map_json, is_signing_commitment_map_json,
    is_signing_nonces_json, json_text, key_signing_share, parse_key_package,
    parse_public_key_package, parse_signature_share_map, parse_signing_commitment_map,
    parse_signing_nonces, sign_accepts, sign_share, signature_bytes, signature_serialization,
    signature_share_json, signature_verifies, signing_commitments_json, signing_nonces_json,
    signing_package,
};
use crate::error::{outcome_view, FrostError};
use crate::hex_codec::{decode_message_hash, hex_decode, hex_encode, is_hex_of_len, is_message_hash_hex};
use crate::origin::{Kind, Origin};

verus! {

/// What signing round 1 hands out: the commitment to publish and the nonces
/// to keep for round 2.
pub struct NonceOutput {
    pub nonce_commitment_json: String,
    pub nonce_secret_json: String,
}

impl View for NonceOutput {
    type V = (Seq<char>, Seq<char>);

    open spec fn view(&self) -> (Seq<char>, Seq<char>) {
        (self.nonce_commitment_json@, self.nonce_secret_json@)
    }
}

/// The length in bytes of a serialized Schnorr signature.
pub const SCHNORR_SIGNATURE_LEN: usize = 64;

/// The nonces that signing round 1 draws for a key package text, when its
/// random draw is `draw`.
pub open spec fn drawn_nonces(key_package_json: Seq<char>, draw: int) -> Origin {
    Origin::SigningNonces(
        draw,
        Box::new(Origin::SigningShare(Box::new(Origin::Parsed(Kind::KeyPackage, key_package_json)))),
    )
}

/// What signing round 1 gives for a key package text when its random draw is
/// `draw`: the commitments of the drawn nonces, then the nonces themselves.
pub open spec fn nonces_outcome(key_package_json: Seq<char>, draw: int) -> Result<
    (Seq<char>, Seq<char>),
    FrostError,
> {
    if !is_key_package_json(key_package_json) {
        Err(FrostError::Serialization)
    } else {
        let nonces = drawn_nonces(key_package_json, draw);
        match (json_text(Origin::Commitments(Box::new(nonces))), json_text(nonces)) {
            (Some(c), Some(n)) => Ok((c, n)),
            _ => Err(FrostError::Serialization),
        }
    }
}

/// Signing round 1: draws fresh nonces for the key package given as JSON and
/// returns the commitments those nonces carry and the nonces themselves,
/// both as JSON.
///
/// A key package that does not parse gives `Serialization`; nothing else but
/// writing the JSON can fail.
pub fn frost_sign_round1_nonces(key_package_json: &str) -> (r: Result<NonceOutput, FrostError>)
    ensures
        exists|draw: int| outcome_view(r) == #[trigger] nonces_outcome(key_package_json@, draw),
        !is_key_package_json(key_package_json@) ==> r == Err::<NonceOutput, FrostError>(
            FrostError::Serialization,
        ),
        r matches Err(e) ==> e == FrostError::Serialization,
{
    let key_package = match parse_key_package(key_package_json) {
        Ok(v) => v,
        Err(_) => {
            assert(outcome_view(Err::<NonceOutput, FrostError>(FrostError::Serialization))
                == nonces_outcome(key_package_json@, 0));
            return Err(FrostError::Serialization);
        },
    };
    let share = key_signing_share(&key_package);
    let (nonces, commitments) = commit_nonces(&share);
    let ghost draw = choose|draw: int| nonces@ == Origin::SigningNonces(draw, Box::new(share@));
    assert(nonces@ == drawn_nonces(key_package_json@, draw));
    let nonce_commitment_json = match signing_commitments_json(&commitments) {
        Ok(json) => json,
        Err(_) => {
            assert(outcome_view(Err::<NonceOutput, FrostError>(FrostError::Serialization))
                == nonces_outcome(key_package_json@, draw));
            return Err(FrostError::Serialization);
        },
    };
    let nonce_secret_json = match signing_nonces_json(&nonces) {
        Ok(json) => json,
        Err(_) => {
            assert(outcome_view(Err::<NonceOutput, FrostError>(FrostError::Serialization))
                == nonces_outcome(key_package_json@, draw));
            return Err(FrostError::Serialization);
        },
    };
    let out = NonceOutput { nonce_commitment_json, nonce_secret_json };
    assert(outcome_view(Ok::<NonceOutput, FrostError>(out)) == nonces_outcome(key_package_json@, draw));
    Ok(out)
}

/// The three JSON inputs of signing round 2 all parse.
pub open spec fn round2_inputs_parse(
    key_package_json: Seq<char>,
    nonce_secret_json: Seq<char>,
    nonce_commitments_json: Seq<char>,
) -> bool {
    &&& is_key_package_json(key_package_json)
    &&& is_signing_nonces_json(nonce_secret_json)
    &&& is_signing_commitment_map_json(nonce_commitments_json)
}

/// The signing package built from a commitments text and a message hash text.
pub open spec fn signing_package_of(nonce_commitments_json: Seq<char>, message_hash_hex: Seq<char>) -> Origin {
    Origin::SigningPackage(
        Box::new(Origin::Parsed(Kind::SigningCommitmentMap, nonce_commitments_json)),
        hex_decode(message_hash_hex)->Some_0,
    )
}

/// What signing round 2 gives for its four texts.
pub open spec fn round2_signature_outcome(
    key_package_json: Seq<char>,
    nonce_secret_json: Seq<char>,
    nonce_commitments_json: Seq<char>,
    message_hash_hex: Seq<char>,
) -> Result<Seq<char>, FrostError> {
    if !round2_inputs_parse(key_package_json, nonce_secret_json, nonce_commitments_json) {
        Err(FrostError::Serialization)
    } else if !is_message_hash_hex(message_hash_hex) {
        Err(FrostError::InvalidParameter)
    } else {
        let package = signing_package_of(nonce_commitments_json, message_hash_hex);
        let nonces = Origin::Parsed(Kind::SigningNonces, nonce_secret_json);
        let key = Origin::Parsed(Kind::KeyPackage, key_package_json);
        if !sign_accepts(package, nonces, key) {
            Err(FrostError::CryptoError)
        } else {
            match json_text(Origin::SignatureShare(Box::new(package), Box::new(nonces), Box::new(key))) {
                Some(t) => Ok(t),
                None => Err(FrostError::Serialization),
            }
        }
    }
}

/// Signing round 2: this participant's share of the signature on a 32-byte
/// message hash given as hex, as JSON.
///
/// Text that does not parse gives `Serialization`, checked before the
/// message; a message that is not the hex of 32 bytes gives
/// `InvalidParameter`; inputs that FROST refuses give `CryptoError`. The share
/// is a function of the four texts.
pub fn frost_sign_round2_signature(
    key_package_json: &str,
    nonce_secret_json: &str,
    nonce_commitments_json: &str,
    message_hash_hex: &str,
) -> (r: Result<String, FrostError>)
    ensures
        outcome_view(r) == round2_signature_outcome(
            key_package_json@,
            nonce_secret_json@,
            nonce_commitments_json@,
            message_hash_hex@,
        ),
        (r == Err::<String, FrostError>(FrostError::InvalidParameter)) <==> (round2_inputs_parse(
            key_package_json@,
            nonce_secret_json@,
            nonce_commitments_json@,
        ) && !is_message_hash_hex(message_hash_hex@)),
        r matches Err(e) ==> e == FrostError::Serialization || e == FrostError::InvalidParameter || e
            == FrostError::CryptoError,
{
    let key_package = match parse_key_package(key_package_json) {
        Ok(v) => v,
        Err(_) => return Err(FrostError::Serialization),
    };
    let nonces = match parse_signing_nonces(nonce_secret_json) {
        Ok(v) => v,
        Err(_) => return Err(FrostError::Serialization),
    };
    let commitments = match parse_signing_commitment_map(nonce_commitments_json) {
        Ok(v) => v,
        Err(_) => return Err(FrostError::Serialization),
    };
    let message = match decode_message_hash(message_hash_hex) {
        Ok(bytes) => bytes,
        Err(e) => return Err(e),
    };
    let package = signing_package(commitments, message.as_slice());
    assert(package@ == signing_package_of(nonce_commitments_json@, message_hash_hex@));
    let share = match sign_share(&package, &nonces, &key_package) {
        Ok(s) => s,
        Err(_) => return Err(FrostError::CryptoError),
    };
    match signature_share_json(&share) {
        Ok(json) => Ok(json),
        Err(_) => Err(FrostError::Serialization),
    }
}

/// The JSON inputs of aggregation all parse.
pub open spec fn aggregate_inputs_parse(
    signature_shares_json: Seq<char>,
    nonce_commitments_json: Seq<char>,
    pubkey_package_json: Seq<char>,
) -> bool {
    &&& is_signature_share_map_json(signature_shares_json)
    &&& is_signing_commitment_map_json(nonce_commitments_json)
    &&& is_public_key_package_json(pubkey_package_json)
}

/// The signature that aggregation computes from its four texts.
pub open spec fn aggregate_signature_of(
    signature_shares_json: Seq<char>,
    nonce_commitments_json: Seq<char>,
    message_hash_hex: Seq<char>,
    pubkey_package_json: Seq<char>,
) -> Origin {
    Origin::Signature(
        Box::new(signing_package_of(nonce_commitments_json, message_hash_hex)),
        Box::new(Origin::Parsed(Kind::SignatureShareMap, signature_shares_json)),
        Box::new(Origin::Parsed(Kind::PublicKeyPackage, pubkey_package_json)),
    )
}

/// What aggregation gives for its four texts: the hex of the serialized
/// aggregate signature.
pub open spec fn aggregate_outcome(
    signature_shares_json: Seq<char>,
    nonce_commitments_json: Seq<char>,
    message_hash_hex: Seq<char>,
    pubkey_package_json: Seq<char>,
) -> Result<Seq<char>, FrostError> {
    if !aggregate_inputs_parse(signature_shares_json, nonce_commitments_json, pubkey_package_json) {
        Err(FrostError::Serialization)
    } else if !is_message_hash_hex(message_hash_hex) {
        Err(FrostError::InvalidParameter)
    } else if !aggregate_accepts(
        signing_package_of(nonce_commitments_json, message_hash_hex),
        Origin::Parsed(Kind::SignatureShareMap, signature_shares_json),
        Origin::Parsed(Kind::PublicKeyPackage, pubkey_package_json),
    ) {
        Err(FrostError::CryptoError)
    } else {
        match signature_serialization(
            aggregate_signature_of(signature_shares_json, nonce_commitments_json, message_hash_hex, pubkey_package_json),
        ) {
            Some(bytes) => Ok(hex_encode(bytes)),
            None => Err(FrostError::Serialization),
        }
    }
}

/// Aggregation: checks the signature shares against the public key package
/// and combines them into the group's Schnorr signature on a 32-byte message
/// hash given as hex. The signature comes back as the lowercase hex of its
/// 64 bytes.
///
/// Text that does not parse gives `Serialization`, checked before the
/// message; a message that is not the hex of 32 bytes gives
/// `InvalidParameter`; shares that FROST refuses give `CryptoError`. The
/// signature is a function of the four texts, and it verifies for the
/// message under the group key of the public key package.
pub fn frost_sign_aggregate(
    signature_shares_json: &str,
    nonce_commitments_json: &str,
    message_hash_hex: &str,
    pubkey_package_json: &str,
) -> (r: Result<String, FrostError>)
    ensures
        outcome_view(r) == aggregate_outcome(
            signature_shares_json@,
            nonce_commitments_json@,
            message_hash_hex@,
            pubkey_package_json@,
        ),
        (r == Err::<String, FrostError>(FrostError::InvalidParameter)) <==> (aggregate_inputs_parse(
            signature_shares_json@,
            nonce_commitments_json@,
            pubkey_package_json@,
        ) && !is_message_hash_hex(message_hash_hex@)),
        r matches Err(e) ==> e == FrostError::Serialization || e == FrostError::InvalidParameter || e
            == FrostError::CryptoError,
        r matches Ok(sig) ==> is_hex_of_len(sig@, SCHNORR_SIGNATURE_LEN as nat),
        r is Ok ==> signature_verifies(
            Origin::GroupKey(Box::new(Origin::Parsed(Kind::PublicKeyPackage, pubkey_package_json@))),
            hex_decode(message_hash_hex@)->Some_0,
            Origin::Signature(
                Box::new(
                    Origin::SigningPackage(
                        Box::new(Origin::Parsed(Kind::SigningCommitmentMap, nonce_commitments_json@)),
                        hex_decode(message_hash_hex@)->Some_0,
                    ),
                ),
                Box::new(Origin::Parsed(Kind::SignatureShareMap, signature_shares_json@)),
                Box::new(Origin::Parsed(Kind::PublicKeyPackage, pubkey_package_json@)),
            ),
        ),
{
    let shares = match parse_signature_share_map(signature_shares_json) {
        Ok(v) => v,
        Err(_) => return Err(FrostError::Serialization),
    };
    let commitments = match parse_signing_commitment_map(nonce_commitments_json) {
        Ok(v) => v,
        Err(_) => return Err(FrostError::Serialization),
    };
    let pubkey_package = match parse_public_key_package(pubkey_package_json) {
        Ok(v) => v,
        Err(_) => return Err(FrostError::Serialization),
    };
    let message = match decode_message_hash(message_hash_hex) {
        Ok(bytes) => bytes,
        Err(e) => return Err(e),
    };
    let package = signing_package(commitments, message.as_slice());
    assert(package@ == signing_package_of(nonce_commitments_json@, message_hash_hex@));
    let signature = match aggregate_shares(&package, &shares, &pubkey_package) {
        Ok(s) => s,
        Err(_) => return Err(FrostError::CryptoError),
    };
    let sig_bytes = match signature_bytes(&signature) {
        Ok(bytes) => bytes,
        Err(_) => return Err(FrostError::Serialization),
    };
    let schnorr_sig_hex = hex_encode_bytes(sig_bytes.as_slice());
    assert(sig_bytes@.len() == SCHNORR_SIGNATURE_LEN && schnorr_sig_hex@ == hex_encode(sig_bytes@));
    Ok(schnorr_sig_hex)
}

} // verus!
