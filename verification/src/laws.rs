//! What each operation does, stated over its inputs and results and proved
//! against the outcomes that the operations' contracts give.
//!
//! Each operation's contract says that its result is the outcome spec
//! function applied to its inputs (for a random draw, to some draw). The laws
//! here say, in terms of the FROST steps alone, which values those outcomes
//! are made from and when they fail.
use vstd::prelude::*;
use crate::bindings::{
    aggregate_accepts, is_dkg_round1_package_map_json, is_dkg_round1_secret_json,
    is_dkg_round2_package_map_json, is_dkg_round2_secret_json, is_key_package_json,
    is_public_key_package_json, is_signature_share_map_json, is_signing_commitment_map_json,
    is_signing_nonces_json, json_text, key_serialization, part2_accepts, part3_accepts,
    round1_secret_coefficient_count, round1_secret_max_signers, round2_secret_max_signers,
    sign_accepts, signature_serialization,
};
use crate::dkg::{dkg_round1_outcome, dkg_round2_outcome, dkg_round3_outcome};
use crate::error::FrostError;
use crate::hex_codec::{hex_decode, hex_digit_value, hex_encode};
use crate::origin::{Kind, Origin};
use crate::signing::{aggregate_outcome, nonces_outcome, round2_signature_outcome};

verus! {

// ---------------------------------------------------------------------------
// DKG part 1
// ---------------------------------------------------------------------------

/// The commitment and secret package that part 1 returns are the JSON of the
/// package and secret drawn for exactly the participant, number of signers
/// and threshold it was given.
pub proof fn law_dkg_round1_made_for_given_parameters(
    participant_id: u16,
    max_signers: u16,
    min_signers: u16,
    draw: int,
)
    ensures
        dkg_round1_outcome(participant_id, max_signers, min_signers, draw) matches Ok((c, s)) ==> {
            &&& json_text(
                Origin::DkgRound1Package(draw, Box::new(Origin::Identifier(participant_id)), max_signers, min_signers),
            ) == Some(c)
            &&& json_text(
                Origin::DkgRound1Secret(draw, Box::new(Origin::Identifier(participant_id)), max_signers, min_signers),
            ) == Some(s)
        },
{
}

/// With a participant number, and a threshold of at least two and at most the
/// number of signers, part 1 succeeds whenever the drawn values can be
/// written as JSON.
pub proof fn law_dkg_round1_succeeds_on_valid_counts(
    participant_id: u16,
    max_signers: u16,
    min_signers: u16,
    draw: int,
)
    requires
        participant_id != 0,
        2 <= min_signers <= max_signers,
        json_text(
            Origin::DkgRound1Package(draw, Box::new(Origin::Identifier(participant_id)), max_signers, min_signers),
        ) is Some,
        json_text(
            Origin::DkgRound1Secret(draw, Box::new(Origin::Identifier(participant_id)), max_signers, min_signers),
        ) is Some,
    ensures
        dkg_round1_outcome(participant_id, max_signers, min_signers, draw) is Ok,
{
}

// ---------------------------------------------------------------------------
// DKG part 2
// ---------------------------------------------------------------------------

/// The shares and round 2 secret that part 2 returns are the JSON of what
/// FROST's part 2 computes from the parsed secret and the parsed packages
/// with this participant's own entry taken out.
pub proof fn law_dkg_round2_made_from_secret_and_other_packages(
    secret_json: Seq<char>,
    commitments_json: Seq<char>,
)
    ensures
        dkg_round2_outcome(secret_json, commitments_json) matches Ok((shares, round2_secret)) ==> ({
            let secret = Origin::Parsed(Kind::DkgRound1Secret, secret_json);
            let packages = Origin::Without(
                Box::new(Origin::Parsed(Kind::DkgRound1PackageMap, commitments_json)),
                Box::new(Origin::OwnIdentifier(Box::new(secret))),
            );
            &&& json_text(Origin::DkgRound2Packages(Box::new(secret), Box::new(packages))) == Some(shares)
            &&& json_text(Origin::DkgRound2Secret(Box::new(secret), Box::new(packages))) == Some(round2_secret)
        }),
{
}

/// On texts that parse, with a secret package that records signers and holds
/// coefficients, part 2 reports `CryptoError` exactly when FROST's part 2
/// refuses the secret and the other participants' packages.
pub proof fn law_dkg_round2_crypto_error_only_when_frost_refuses(
    secret_json: Seq<char>,
    commitments_json: Seq<char>,
)
    requires
        is_dkg_round1_secret_json(secret_json),
        is_dkg_round1_package_map_json(commitments_json),
        round1_secret_max_signers(Origin::Parsed(Kind::DkgRound1Secret, secret_json)) >= 1,
        round1_secret_coefficient_count(Origin::Parsed(Kind::DkgRound1Secret, secret_json)) >= 1,
    ensures
        (dkg_round2_outcome(secret_json, commitments_json) == Err::<(Seq<char>, Seq<char>), FrostError>(
            FrostError::CryptoError,
        )) <==> !part2_accepts(
            Origin::Parsed(Kind::DkgRound1Secret, secret_json),
            Origin::Without(
                Box::new(Origin::Parsed(Kind::DkgRound1PackageMap, commitments_json)),
                Box::new(Origin::OwnIdentifier(Box::new(Origin::Parsed(Kind::DkgRound1Secret, secret_json)))),
            ),
        ),
{
}

// ---------------------------------------------------------------------------
// DKG part 3
// ---------------------------------------------------------------------------

/// The outputs of part 3 are the hex of the serialized group key of the
/// public key package FROST's part 3 computes, and the JSON of that key
/// package and public key package, all from the parsed round 2 secret, the
/// parsed round 1 packages without this participant's own entry, and the
/// parsed round 2 packages.
pub proof fn law_dkg_round3_made_from_inputs(
    round2_secret_json: Seq<char>,
    round1_json: Seq<char>,
    round2_json: Seq<char>,
)
    ensures
        dkg_round3_outcome(round2_secret_json, round1_json, round2_json) matches Ok((group_key, key_package, public_keys)) ==> ({
            let secret = Origin::Parsed(Kind::DkgRound2Secret, round2_secret_json);
            let round1 = Origin::Without(
                Box::new(Origin::Parsed(Kind::DkgRound1PackageMap, round1_json)),
                Box::new(Origin::OwnIdentifier(Box::new(secret))),
            );
            let round2 = Origin::Parsed(Kind::DkgRound2PackageMap, round2_json);
            let pk = Origin::PublicKeyPackage(Box::new(secret), Box::new(round1), Box::new(round2));
            &&& key_serialization(Origin::GroupKey(Box::new(pk))) is Some
            &&& group_key == hex_encode(key_serialization(Origin::GroupKey(Box::new(pk)))->Some_0)
            &&& json_text(Origin::KeyPackage(Box::new(secret), Box::new(round1), Box::new(round2))) == Some(key_package)
            &&& json_text(pk) == Some(public_keys)
        }),
{
}

/// On texts that parse, with a round 2 secret that records signers, part 3
/// reports `CryptoError` exactly when FROST's part 3 refuses its inputs.
pub proof fn law_dkg_round3_crypto_error_only_when_frost_refuses(
    round2_secret_json: Seq<char>,
    round1_json: Seq<char>,
    round2_json: Seq<char>,
)
    requires
        is_dkg_round2_secret_json(round2_secret_json),
        is_dkg_round1_package_map_json(round1_json),
        is_dkg_round2_package_map_json(round2_json),
        round2_secret_max_signers(Origin::Parsed(Kind::DkgRound2Secret, round2_secret_json)) >= 1,
    ensures
        (dkg_round3_outcome(round2_secret_json, round1_json, round2_json) == Err::<
            (Seq<char>, Seq<char>, Seq<char>),
            FrostError,
        >(FrostError::CryptoError)) <==> !part3_accepts(
            Origin::Parsed(Kind::DkgRound2Secret, round2_secret_json),
            Origin::Without(
                Box::new(Origin::Parsed(Kind::DkgRound1PackageMap, round1_json)),
                Box::new(Origin::OwnIdentifier(Box::new(Origin::Parsed(Kind::DkgRound2Secret, round2_secret_json)))),
            ),
            Origin::Parsed(Kind::DkgRound2PackageMap, round2_json),
        ),
{
}

// ---------------------------------------------------------------------------
// Signing round 1
// ---------------------------------------------------------------------------

/// The published commitment is the JSON of the commitments of the very
/// nonces returned, and those nonces are drawn for the key package's share.
pub proof fn law_nonce_commitment_belongs_to_returned_nonces(key_package_json: Seq<char>, draw: int)
    ensures
        nonces_outcome(key_package_json, draw) matches Ok((commitment, nonces)) ==> ({
            let n = Origin::SigningNonces(
                draw,
                Box::new(Origin::SigningShare(Box::new(Origin::Parsed(Kind::KeyPackage, key_package_json)))),
            );
            &&& json_text(Origin::Commitments(Box::new(n))) == Some(commitment)
            &&& json_text(n) == Some(nonces)
        }),
{
}

// ---------------------------------------------------------------------------
// Signing round 2
// ---------------------------------------------------------------------------

/// The share is computed over exactly the bytes the message hex stands for,
/// in the order given, with the parsed nonces and key package.
pub proof fn law_round2_share_signs_decoded_message(
    key_package_json: Seq<char>,
    nonce_secret_json: Seq<char>,
    nonce_commitments_json: Seq<char>,
    message_hash_hex: Seq<char>,
)
    ensures
        round2_signature_outcome(key_package_json, nonce_secret_json, nonce_commitments_json, message_hash_hex) matches Ok(share) ==> {
            &&& hex_decode(message_hash_hex) is Some
            &&& json_text(
                Origin::SignatureShare(
                    Box::new(
                        Origin::SigningPackage(
                            Box::new(Origin::Parsed(Kind::SigningCommitmentMap, nonce_commitments_json)),
                            hex_decode(message_hash_hex)->Some_0,
                        ),
                    ),
                    Box::new(Origin::Parsed(Kind::SigningNonces, nonce_secret_json)),
                    Box::new(Origin::Parsed(Kind::KeyPackage, key_package_json)),
                ),
            ) == Some(share)
        },
{
}

/// On texts that parse and a message that is the hex of 32 bytes, round 2
/// reports `CryptoError` exactly when FROST's `sign` refuses the package over
/// those bytes, the nonces and the key package.
pub proof fn law_round2_crypto_error_only_when_frost_refuses(
    key_package_json: Seq<char>,
    nonce_secret_json: Seq<char>,
    nonce_commitments_json: Seq<char>,
    message_hash_hex: Seq<char>,
)
    requires
        is_key_package_json(key_package_json),
        is_signing_nonces_json(nonce_secret_json),
        is_signing_commitment_map_json(nonce_commitments_json),
        hex_decode(message_hash_hex) is Some,
        hex_decode(message_hash_hex)->Some_0.len() == 32,
    ensures
        (round2_signature_outcome(key_package_json, nonce_secret_json, nonce_commitments_json, message_hash_hex)
            == Err::<Seq<char>, FrostError>(FrostError::CryptoError)) <==> !sign_accepts(
            Origin::SigningPackage(
                Box::new(Origin::Parsed(Kind::SigningCommitmentMap, nonce_commitments_json)),
                hex_decode(message_hash_hex)->Some_0,
            ),
            Origin::Parsed(Kind::SigningNonces, nonce_secret_json),
            Origin::Parsed(Kind::KeyPackage, key_package_json),
        ),
{
}

/// Round 2 reads the message only through the bytes it stands for: two hex
/// texts for the same bytes, in either case, give the same outcome.
pub proof fn law_round2_depends_on_message_bytes_only(
    key_package_json: Seq<char>,
    nonce_secret_json: Seq<char>,
    nonce_commitments_json: Seq<char>,
    message_hex_a: Seq<char>,
    message_hex_b: Seq<char>,
)
    requires
        hex_decode(message_hex_a) == hex_decode(message_hex_b),
    ensures
        round2_signature_outcome(key_package_json, nonce_secret_json, nonce_commitments_json, message_hex_a)
            == round2_signature_outcome(key_package_json, nonce_secret_json, nonce_commitments_json, message_hex_b),
{
}

// ---------------------------------------------------------------------------
// Aggregation
// ---------------------------------------------------------------------------

/// The aggregate signature returned is the hex of the serialization of what
/// FROST's `aggregate` computes over exactly the bytes the message hex stands
/// for, with the parsed shares and public key package.
pub proof fn law_aggregate_signs_decoded_message(
    signature_shares_json: Seq<char>,
    nonce_commitments_json: Seq<char>,
    message_hash_hex: Seq<char>,
    pubkey_package_json: Seq<char>,
)
    ensures
        aggregate_outcome(signature_shares_json, nonce_commitments_json, message_hash_hex, pubkey_package_json) matches Ok(signature) ==> ({
            let sig = Origin::Signature(
                Box::new(
                    Origin::SigningPackage(
                        Box::new(Origin::Parsed(Kind::SigningCommitmentMap, nonce_commitments_json)),
                        hex_decode(message_hash_hex)->Some_0,
                    ),
                ),
                Box::new(Origin::Parsed(Kind::SignatureShareMap, signature_shares_json)),
                Box::new(Origin::Parsed(Kind::PublicKeyPackage, pubkey_package_json)),
            );
            &&& hex_decode(message_hash_hex) is Some
            &&& signature_serialization(sig) is Some
            &&& signature == hex_encode(signature_serialization(sig)->Some_0)
        }),
{
}

/// On texts that parse and a message that is the hex of 32 bytes, in either
/// case, aggregation reports `CryptoError` exactly when FROST's `aggregate`
/// refuses the package over those bytes, the shares and the public key
/// package.
pub proof fn law_aggregate_crypto_error_only_when_frost_refuses(
    signature_shares_json: Seq<char>,
    nonce_commitments_json: Seq<char>,
    message_hash_hex: Seq<char>,
    pubkey_package_json: Seq<char>,
)
    requires
        is_signature_share_map_json(signature_shares_json),
        is_signing_commitment_map_json(nonce_commitments_json),
        is_public_key_package_json(pubkey_package_json),
        hex_decode(message_hash_hex) is Some,
        hex_decode(message_hash_hex)->Some_0.len() == 32,
    ensures
        (aggregate_outcome(signature_shares_json, nonce_commitments_json, message_hash_hex, pubkey_package_json)
            == Err::<Seq<char>, FrostError>(FrostError::CryptoError)) <==> !aggregate_accepts(
            Origin::SigningPackage(
                Box::new(Origin::Parsed(Kind::SigningCommitmentMap, nonce_commitments_json)),
                hex_decode(message_hash_hex)->Some_0,
            ),
            Origin::Parsed(Kind::SignatureShareMap, signature_shares_json),
            Origin::Parsed(Kind::PublicKeyPackage, pubkey_package_json),
        ),
{
}

/// Aggregation reads the message only through the bytes it stands for: two
/// hex texts for the same bytes, in either case, give the same outcome.
pub proof fn law_aggregate_depends_on_message_bytes_only(
    signature_shares_json: Seq<char>,
    nonce_commitments_json: Seq<char>,
    message_hex_a: Seq<char>,
    message_hex_b: Seq<char>,
    pubkey_package_json: Seq<char>,
)
    requires
        hex_decode(message_hex_a) == hex_decode(message_hex_b),
    ensures
        aggregate_outcome(signature_shares_json, nonce_commitments_json, message_hex_a, pubkey_package_json)
            == aggregate_outcome(signature_shares_json, nonce_commitments_json, message_hex_b, pubkey_package_json),
{
}

/// Hex digits stand for the same value in either case, so a message hash
/// written in uppercase stands for the same bytes as in lowercase.
pub proof fn law_hex_digits_either_case(lower: char, upper: char)
    requires
        97 <= (lower as u32) <= 102,
        (upper as u32) == (lower as u32) - 32,
    ensures
        hex_digit_value(upper) == hex_digit_value(lower),
        hex_digit_value(lower) is Some,
{
}

} // verus!
