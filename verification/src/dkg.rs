//! Distributed key generation, in three parts, with every package as JSON text.
use vstd::prelude::*;
use crate::bindings::{
    dkg_part1, dkg_part2, dkg_part3, dkg_round1_package_json, dkg_round1_secret_coefficient_count,
    dkg_round1_secret_identifier, dkg_round1_secret_json, dkg_round1_secret_max_signers,
    dkg_round2_package_map_json, dkg_round2_secret_identifier, dkg_round2_secret_max_signers,
    dkg_round2_secret_json, group_verifying_key, hex_encode_bytes, identifier_from_u16,
    is_dkg_round1_package_map_json, is_dkg_round1_secret_json, is_dkg_round2_package_map_json,
    is_dkg_round2_secret_json, json_text, key_package_json, key_serialization, parse_dkg_round1_package_map,
    parse_dkg_round1_secret, parse_dkg_round2_package_map, parse_dkg_round2_secret, part2_accepts,
    part3_accepts, public_key_package_json, remove_round1_package, round1_secret_coefficient_count,
    round1_secret_max_signers, round2_secret_max_signers, verifying_key_bytes,
};
use crate::error::{outcome_view, FrostError};
use crate::hex_codec::{hex_encode, is_hex_of_len};
use crate::origin::{Kind, Origin};

verus! {

/// What part 1 hands out: the commitment to broadcast and the secret to keep.
pub struct DkgRound1Output {
    pub commitment_json: String,
    pub secret_package_json: String,
}

impl View for DkgRound1Output {
    type V = (Seq<char>, Seq<char>);

    open spec fn view(&self) -> (Seq<char>, Seq<char>) {
        (self.commitment_json@, self.secret_package_json@)
    }
}

/// What part 2 hands out: the shares to send and the secret to keep.
pub struct DkgRound2Output {
    pub shares_json: String,
    pub round2_secret_json: String,
}

impl View for DkgRound2Output {
    type V = (Seq<char>, Seq<char>);

    open spec fn view(&self) -> (Seq<char>, Seq<char>) {
        (self.shares_json@, self.round2_secret_json@)
    }
}

/// What part 3 hands out: the group key as hex, this participant's key
/// package and the group's public key package.
pub struct DkgRound3Output {
    pub group_pubkey_hex: String,
    pub key_package_json: String,
    pub pubkey_package_json: String,
}

impl View for DkgRound3Output {
    type V = (Seq<char>, Seq<char>, Seq<char>);

    open spec fn view(&self) -> (Seq<char>, Seq<char>, Seq<char>) {
        (self.group_pubkey_hex@, self.key_package_json@, self.pubkey_package_json@)
    }
}

/// The length in bytes of a serialized group verifying key.
pub const GROUP_PUBKEY_LEN: usize = 33;

/// Parameters that part 1 accepts before it asks FROST: a participant number
/// counted from one, and a threshold between one and the number of signers.
pub open spec fn dkg_params_valid(participant_id: u16, max_signers: u16, min_signers: u16) -> bool {
    participant_id != 0 && max_signers != 0 && min_signers != 0 && min_signers <= max_signers
}

/// Checks the parameters of part 1.
pub fn check_dkg_params(participant_id: u16, max_signers: u16, min_signers: u16) -> (ok: bool)
    ensures
        ok == dkg_params_valid(participant_id, max_signers, min_signers),
{
    !(participant_id == 0 || max_signers == 0 || min_signers == 0 || min_signers > max_signers)
}

/// What part 1 gives for its parameters when its random draw is `draw`: the
/// commitment and the secret package of one draw, made for this participant,
/// number of signers and threshold.
pub open spec fn dkg_round1_outcome(participant_id: u16, max_signers: u16, min_signers: u16, draw: int) -> Result<
    (Seq<char>, Seq<char>),
    FrostError,
> {
    if !dkg_params_valid(participant_id, max_signers, min_signers) {
        Err(FrostError::InvalidParameter)
    } else if min_signers < 2 {
        Err(FrostError::CryptoError)
    } else {
        let id = Origin::Identifier(participant_id);
        let secret = Origin::DkgRound1Secret(draw, Box::new(id), max_signers, min_signers);
        let package = Origin::DkgRound1Package(draw, Box::new(id), max_signers, min_signers);
        match (json_text(package), json_text(secret)) {
            (Some(commitment), Some(secret_text)) => Ok((commitment, secret_text)),
            _ => Err(FrostError::Serialization),
        }
    }
}

/// DKG part 1: draws this participant's secret polynomial and returns the
/// commitment to broadcast and the secret package to keep, both as JSON.
///
/// Parameters out of range give `InvalidParameter`; a threshold of one, which
/// FROST refuses, gives `CryptoError`; otherwise only writing the JSON can fail.
pub fn frost_dkg_round1_generate(participant_id: u16, max_signers: u16, min_signers: u16) -> (r: Result<
    DkgRound1Output,
    FrostError,
>)
    ensures
        exists|draw: int|
            outcome_view(r) == #[trigger] dkg_round1_outcome(participant_id, max_signers, min_signers, draw),
        (r == Err::<DkgRound1Output, FrostError>(FrostError::InvalidParameter)) <==> !dkg_params_valid(
            participant_id,
            max_signers,
            min_signers,
        ),
        (r == Err::<DkgRound1Output, FrostError>(FrostError::CryptoError)) <==> (dkg_params_valid(
            participant_id,
            max_signers,
            min_signers,
        ) && min_signers < 2),
        r matches Err(e) ==> e == FrostError::InvalidParameter || e == FrostError::CryptoError || e
            == FrostError::Serialization,
{
    if !check_dkg_params(participant_id, max_signers, min_signers) {
        return Err(FrostError::InvalidParameter);
    }
    let id = match identifier_from_u16(participant_id) {
        Ok(id) => id,
        Err(_) => return Err(FrostError::InvalidParameter),
    };
    let (secret, package) = match dkg_part1(id, max_signers, min_signers) {
        Ok(parts) => parts,
        Err(_) => return Err(FrostError::CryptoError),
    };
    let ghost draw = choose|draw: int|
        secret@ == Origin::DkgRound1Secret(draw, Box::new(Origin::Identifier(participant_id)), max_signers, min_signers)
        && package@ == Origin::DkgRound1Package(draw, Box::new(Origin::Identifier(participant_id)), max_signers, min_signers);
    let commitment_json = match dkg_round1_package_json(&package) {
        Ok(json) => json,
        Err(_) => {
            assert(outcome_view(Err::<DkgRound1Output, FrostError>(FrostError::Serialization))
                == dkg_round1_outcome(participant_id, max_signers, min_signers, draw));
            return Err(FrostError::Serialization);
        },
    };
    let secret_package_json = match dkg_round1_secret_json(&secret) {
        Ok(json) => json,
        Err(_) => {
            assert(outcome_view(Err::<DkgRound1Output, FrostError>(FrostError::Serialization))
                == dkg_round1_outcome(participant_id, max_signers, min_signers, draw));
            return Err(FrostError::Serialization);
        },
    };
    let out = DkgRound1Output { commitment_json, secret_package_json };
    assert(outcome_view(Ok::<DkgRound1Output, FrostError>(out)) == dkg_round1_outcome(
        participant_id,
        max_signers,
        min_signers,
        draw,
    ));
    Ok(out)
}

/// The values part 2 hands to FROST for its two texts: the secret package,
/// and the round 1 packages with this participant's own entry taken out.
pub open spec fn dkg_round2_inputs(secret_json: Seq<char>, commitments_json: Seq<char>) -> (Origin, Origin) {
    let secret = Origin::Parsed(Kind::DkgRound1Secret, secret_json);
    let packages = Origin::Without(
        Box::new(Origin::Parsed(Kind::DkgRound1PackageMap, commitments_json)),
        Box::new(Origin::OwnIdentifier(Box::new(secret))),
    );
    (secret, packages)
}

/// What part 2 gives for its two texts.
pub open spec fn dkg_round2_outcome(secret_json: Seq<char>, commitments_json: Seq<char>) -> Result<
    (Seq<char>, Seq<char>),
    FrostError,
> {
    if !is_dkg_round1_secret_json(secret_json) || !is_dkg_round1_package_map_json(commitments_json) {
        Err(FrostError::Serialization)
    } else {
        let (secret, packages) = dkg_round2_inputs(secret_json, commitments_json);
        if round1_secret_max_signers(secret) == 0 || round1_secret_coefficient_count(secret) == 0 {
            Err(FrostError::CryptoError)
        } else if !part2_accepts(secret, packages) {
            Err(FrostError::CryptoError)
        } else {
            let shares = Origin::DkgRound2Packages(Box::new(secret), Box::new(packages));
            let round2_secret = Origin::DkgRound2Secret(Box::new(secret), Box::new(packages));
            match (json_text(shares), json_text(round2_secret)) {
                (Some(a), Some(b)) => Ok((a, b)),
                _ => Err(FrostError::Serialization),
            }
        }
    }
}

/// DKG part 2: from this participant's round 1 secret and the round 1
/// packages, computes the shares to send to each other participant.
///
/// The map may hold every participant's package, this participant's own
/// included: its own entry is taken out before FROST sees the map. Text that
/// does not parse gives `Serialization`; a secret package that records no
/// signers or holds no coefficients, on which FROST would panic, and packages
/// that FROST refuses give `CryptoError`. The outputs are functions of the
/// two texts.
pub fn frost_dkg_round2_generate_shares(secret_package: &str, commitments_json: &str) -> (r: Result<
    DkgRound2Output,
    FrostError,
>)
    ensures
        outcome_view(r) == dkg_round2_outcome(secret_package@, commitments_json@),
        r matches Err(e) ==> e == FrostError::Serialization || e == FrostError::CryptoError,
{
    let ghost (gs, gp) = dkg_round2_inputs(secret_package@, commitments_json@);
    let secret = match parse_dkg_round1_secret(secret_package) {
        Ok(v) => v,
        Err(_) => return Err(FrostError::Serialization),
    };
    let mut packages = match parse_dkg_round1_package_map(commitments_json) {
        Ok(v) => v,
        Err(_) => return Err(FrostError::Serialization),
    };
    if dkg_round1_secret_max_signers(&secret) == 0 || dkg_round1_secret_coefficient_count(&secret) == 0 {
        return Err(FrostError::CryptoError);
    }
    let own = dkg_round1_secret_identifier(&secret);
    remove_round1_package(&mut packages, &own);
    assert(secret@ == gs && packages@ == gp);
    let (round2_secret, shares) = match dkg_part2(secret, &packages) {
        Ok(parts) => parts,
        Err(_) => return Err(FrostError::CryptoError),
    };
    let shares_json = match dkg_round2_package_map_json(&shares) {
        Ok(json) => json,
        Err(_) => return Err(FrostError::Serialization),
    };
    let round2_secret_json = match dkg_round2_secret_json(&round2_secret) {
        Ok(json) => json,
        Err(_) => return Err(FrostError::Serialization),
    };
    Ok(DkgRound2Output { shares_json, round2_secret_json })
}

/// The values part 3 hands to FROST for its three texts: the round 2 secret,
/// the round 1 packages with this participant's own entry taken out, and the
/// round 2 packages received.
pub open spec fn dkg_round3_inputs(
    round2_secret_json: Seq<char>,
    round1_json: Seq<char>,
    round2_json: Seq<char>,
) -> (Origin, Origin, Origin) {
    let secret = Origin::Parsed(Kind::DkgRound2Secret, round2_secret_json);
    let round1 = Origin::Without(
        Box::new(Origin::Parsed(Kind::DkgRound1PackageMap, round1_json)),
        Box::new(Origin::OwnIdentifier(Box::new(secret))),
    );
    let round2 = Origin::Parsed(Kind::DkgRound2PackageMap, round2_json);
    (secret, round1, round2)
}

/// The public key package that part 3 computes from its three texts.
pub open spec fn dkg_round3_public_keys(
    round2_secret_json: Seq<char>,
    round1_json: Seq<char>,
    round2_json: Seq<char>,
) -> Origin {
    let (secret, round1, round2) = dkg_round3_inputs(round2_secret_json, round1_json, round2_json);
    Origin::PublicKeyPackage(Box::new(secret), Box::new(round1), Box::new(round2))
}

/// What part 3 gives for its three texts: the hex of the group key that the
/// returned public key package holds, the key package and the public key
/// package.
pub open spec fn dkg_round3_outcome(
    round2_secret_json: Seq<char>,
    round1_json: Seq<char>,
    round2_json: Seq<char>,
) -> Result<(Seq<char>, Seq<char>, Seq<char>), FrostError> {
    if !is_dkg_round2_secret_json(round2_secret_json) || !is_dkg_round1_package_map_json(round1_json)
        || !is_dkg_round2_package_map_json(round2_json) {
        Err(FrostError::Serialization)
    } else {
        let (secret, round1, round2) = dkg_round3_inputs(round2_secret_json, round1_json, round2_json);
        if round2_secret_max_signers(secret) == 0 {
            Err(FrostError::CryptoError)
        } else if !part3_accepts(secret, round1, round2) {
            Err(FrostError::CryptoError)
        } else {
            let key_package = Origin::KeyPackage(Box::new(secret), Box::new(round1), Box::new(round2));
            let public_keys = dkg_round3_public_keys(round2_secret_json, round1_json, round2_json);
            match key_serialization(Origin::GroupKey(Box::new(public_keys))) {
                None => Err(FrostError::Serialization),
                Some(key_bytes) => match (json_text(key_package), json_text(public_keys)) {
                    (Some(k), Some(p)) => Ok((hex_encode(key_bytes), k, p)),
                    _ => Err(FrostError::Serialization),
                },
            }
        }
    }
}

/// DKG part 3: from this participant's round 2 secret, the round 1 packages
/// and the round 2 shares received, computes this participant's key package
/// and the group's public key package, and gives the group key as hex.
///
/// The round 1 map may hold every participant's package, this participant's
/// own included: its own entry is taken out before FROST sees the map. Text
/// that does not parse gives `Serialization`; a round 2 secret that records
/// no signers, on which FROST would panic, and packages that FROST refuses
/// give `CryptoError`. The group key is the lowercase hex of the 33-byte
/// serialization of the key in the returned public key package.
pub fn frost_dkg_round3_finalize(
    round2_secret_package: &str,
    round1_packages_json: &str,
    round2_packages_json: &str,
) -> (r: Result<DkgRound3Output, FrostError>)
    ensures
        outcome_view(r) == dkg_round3_outcome(
            round2_secret_package@,
            round1_packages_json@,
            round2_packages_json@,
        ),
        r matches Err(e) ==> e == FrostError::Serialization || e == FrostError::CryptoError,
        r matches Ok(out) ==> is_hex_of_len(out.group_pubkey_hex@, GROUP_PUBKEY_LEN as nat),
{
    let ghost (gs, g1, g2) = dkg_round3_inputs(
        round2_secret_package@,
        round1_packages_json@,
        round2_packages_json@,
    );
    let round2_secret = match parse_dkg_round2_secret(round2_secret_package) {
        Ok(v) => v,
        Err(_) => return Err(FrostError::Serialization),
    };
    let mut round1_packages = match parse_dkg_round1_package_map(round1_packages_json) {
        Ok(v) => v,
        Err(_) => return Err(FrostError::Serialization),
    };
    let round2_packages = match parse_dkg_round2_package_map(round2_packages_json) {
        Ok(v) => v,
        Err(_) => return Err(FrostError::Serialization),
    };
    if dkg_round2_secret_max_signers(&round2_secret) == 0 {
        return Err(FrostError::CryptoError);
    }
    let own = dkg_round2_secret_identifier(&round2_secret);
    remove_round1_package(&mut round1_packages, &own);
    assert(round2_secret@ == gs && round1_packages@ == g1 && round2_packages@ == g2);
    let (key_package, pubkey_package) = match dkg_part3(
        &round2_secret,
        &round1_packages,
        &round2_packages,
    ) {
        Ok(parts) => parts,
        Err(_) => return Err(FrostError::CryptoError),
    };
    let group_key = group_verifying_key(&pubkey_package);
    let pubkey_bytes = match verifying_key_bytes(&group_key) {
        Ok(bytes) => bytes,
        Err(_) => return Err(FrostError::Serialization),
    };
    let group_pubkey_hex = hex_encode_bytes(pubkey_bytes.as_slice());
    assert(pubkey_bytes@.len() == GROUP_PUBKEY_LEN && group_pubkey_hex@ == hex_encode(pubkey_bytes@));
    let key_package_json = match key_package_json(&key_package) {
        Ok(json) => json,
        Err(_) => return Err(FrostError::Serialization),
    };
    let pubkey_package_json = match public_key_package_json(&pubkey_package) {
        Ok(json) => json,
        Err(_) => return Err(FrostError::Serialization),
    };
    Ok(DkgRound3Output { group_pubkey_hex, key_package_json, pubkey_package_json })
}

} // verus!
