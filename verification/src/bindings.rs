//! The calls into `frost-secp256k1-tr`, `serde_json`, `hex` and `rand`.
//!
//! Everything here is trusted: Verus believes these contracts without reading
//! the bodies. Each FROST value is kept in an opaque raw struct (whose insides
//! Verus does not see) inside a `Held`, which carries the value's `Origin`:
//! the `frost_secp256k1_tr` types are aliases of generic `frost_core` types
//! bounded by the `Ciphersuite` trait, and Verus refuses to declare a type
//! with a bound on a trait it has not been told of.
use vstd::prelude::*;
use crate::hex_codec::{hex_decode, hex_encode};
use crate::origin::{Kind, Origin};

verus! {

// ---------------------------------------------------------------------------
// Outside types
// ---------------------------------------------------------------------------

/// `serde_json::Error`, carried as an opaque value.
#[verifier::external_type_specification]
#[verifier::external_body]
pub struct ExJsonError(serde_json::Error);

/// `hex::FromHexError`, carried as an opaque value.
#[verifier::external_type_specification]
#[verifier::external_body]
pub struct ExFromHexError(hex::FromHexError);

/// Any error that the FROST library reports.
#[verifier::external_body]
pub struct CryptoFailure {
    inner: frost_secp256k1_tr::Error,
}

/// A FROST value together with how it came to be.
pub struct Held<R> {
    raw: R,
    origin: Ghost<Origin>,
}

impl<R> View for Held<R> {
    type V = Origin;

    closed spec fn view(&self) -> Origin {
        self.origin@
    }
}

/// A FROST participant identifier.
#[verifier::external_body]
pub struct RawIdentifier {
    inner: frost_secp256k1_tr::Identifier,
}

/// A FROST participant identifier.
pub type ParticipantId = Held<RawIdentifier>;

/// What a participant keeps to itself between DKG parts 1 and 2.
#[verifier::external_body]
pub struct RawDkgRound1Secret {
    inner: frost_secp256k1_tr::keys::dkg::round1::SecretPackage,
}

/// What a participant keeps to itself between DKG parts 1 and 2.
pub type DkgRound1Secret = Held<RawDkgRound1Secret>;

/// What a participant broadcasts after DKG part 1.
#[verifier::external_body]
pub struct RawDkgRound1Package {
    inner: frost_secp256k1_tr::keys::dkg::round1::Package,
}

/// What a participant broadcasts after DKG part 1.
pub type DkgRound1Package = Held<RawDkgRound1Package>;

/// Round 1 packages, by sender.
#[verifier::external_body]
pub struct RawDkgRound1PackageMap {
    inner: std::collections::BTreeMap<frost_secp256k1_tr::Identifier, frost_secp256k1_tr::keys::dkg::round1::Package>,
}

/// Round 1 packages, by sender.
pub type DkgRound1PackageMap = Held<RawDkgRound1PackageMap>;

/// What a participant keeps to itself between DKG parts 2 and 3.
#[verifier::external_body]
pub struct RawDkgRound2Secret {
    inner: frost_secp256k1_tr::keys::dkg::round2::SecretPackage,
}

/// What a participant keeps to itself between DKG parts 2 and 3.
pub type DkgRound2Secret = Held<RawDkgRound2Secret>;

/// Round 2 packages, by the participant they are sent to or received from.
#[verifier::external_body]
pub struct RawDkgRound2PackageMap {
    inner: std::collections::BTreeMap<frost_secp256k1_tr::Identifier, frost_secp256k1_tr::keys::dkg::round2::Package>,
}

/// Round 2 packages, by the participant they are sent to or received from.
pub type DkgRound2PackageMap = Held<RawDkgRound2PackageMap>;

/// A participant's long-lived key share.
#[verifier::external_body]
pub struct RawKeyPackage {
    inner: frost_secp256k1_tr::keys::KeyPackage,
}

/// A participant's long-lived key share.
pub type KeyPackage = Held<RawKeyPackage>;

/// The public side of a DKG run: the group key and every verifying share.
#[verifier::external_body]
pub struct RawPublicKeyPackage {
    inner: frost_secp256k1_tr::keys::PublicKeyPackage,
}

/// The public side of a DKG run: the group key and every verifying share.
pub type PublicKeyPackage = Held<RawPublicKeyPackage>;

/// The group's verifying key.
#[verifier::external_body]
pub struct RawVerifyingKey {
    inner: frost_secp256k1_tr::VerifyingKey,
}

/// The group's verifying key.
pub type GroupVerifyingKey = Held<RawVerifyingKey>;

/// A participant's secret signing share.
#[verifier::external_body]
pub struct RawSigningShare {
    inner: frost_secp256k1_tr::keys::SigningShare,
}

/// A participant's secret signing share.
pub type SigningShare = Held<RawSigningShare>;

/// The secret nonces of one signing round.
#[verifier::external_body]
pub struct RawSigningNonces {
    inner: frost_secp256k1_tr::round1::SigningNonces,
}

/// The secret nonces of one signing round.
pub type SigningNonces = Held<RawSigningNonces>;

/// The public commitments to one participant's nonces.
#[verifier::external_body]
pub struct RawSigningCommitments {
    inner: frost_secp256k1_tr::round1::SigningCommitments,
}

/// The public commitments to one participant's nonces.
pub type SigningCommitments = Held<RawSigningCommitments>;

/// Nonce commitments, by participant.
#[verifier::external_body]
pub struct RawSigningCommitmentMap {
    inner: std::collections::BTreeMap<frost_secp256k1_tr::Identifier, frost_secp256k1_tr::round1::SigningCommitments>,
}

/// Nonce commitments, by participant.
pub type SigningCommitmentMap = Held<RawSigningCommitmentMap>;

/// The message and commitments of one signing operation.
#[verifier::external_body]
pub struct RawSigningPackage {
    inner: frost_secp256k1_tr::SigningPackage,
}

/// The message and commitments of one signing operation.
pub type SigningPackage = Held<RawSigningPackage>;

/// One participant's share of a signature.
#[verifier::external_body]
pub struct RawSignatureShare {
    inner: frost_secp256k1_tr::round2::SignatureShare,
}

/// One participant's share of a signature.
pub type SignatureShare = Held<RawSignatureShare>;

/// Signature shares, by participant.
#[verifier::external_body]
pub struct RawSignatureShareMap {
    inner: std::collections::BTreeMap<frost_secp256k1_tr::Identifier, frost_secp256k1_tr::round2::SignatureShare>,
}

/// Signature shares, by participant.
pub type SignatureShareMap = Held<RawSignatureShareMap>;

/// An aggregated Schnorr signature.
#[verifier::external_body]
pub struct RawSignature {
    inner: frost_secp256k1_tr::Signature,
}

/// An aggregated Schnorr signature.
pub type GroupSignature = Held<RawSignature>;

// ---------------------------------------------------------------------------
// Names for what the outside functions return
// ---------------------------------------------------------------------------

/// `serde_json::from_str` accepts the text as a DKG round 1 secret package.
pub uninterp spec fn is_dkg_round1_secret_json(json: Seq<char>) -> bool;

/// `serde_json::from_str` accepts the text as a map from identifiers to DKG round 1 packages.
pub uninterp spec fn is_dkg_round1_package_map_json(json: Seq<char>) -> bool;

/// `serde_json::from_str` accepts the text as a DKG round 2 secret package.
pub uninterp spec fn is_dkg_round2_secret_json(json: Seq<char>) -> bool;

/// `serde_json::from_str` accepts the text as a map from identifiers to DKG round 2 packages.
pub uninterp spec fn is_dkg_round2_package_map_json(json: Seq<char>) -> bool;

/// `serde_json::from_str` accepts the text as a key package.
pub uninterp spec fn is_key_package_json(json: Seq<char>) -> bool;

/// `serde_json::from_str` accepts the text as signing nonces.
pub uninterp spec fn is_signing_nonces_json(json: Seq<char>) -> bool;

/// `serde_json::from_str` accepts the text as a map from identifiers to nonce commitments.
pub uninterp spec fn is_signing_commitment_map_json(json: Seq<char>) -> bool;

/// `serde_json::from_str` accepts the text as a map from identifiers to signature shares.
pub uninterp spec fn is_signature_share_map_json(json: Seq<char>) -> bool;

/// `serde_json::from_str` accepts the text as a public key package.
pub uninterp spec fn is_public_key_package_json(json: Seq<char>) -> bool;

/// What `serde_json::to_string` writes for a value; `None` where it fails.
pub uninterp spec fn json_text(value: Origin) -> Option<Seq<char>>;

/// `keys::dkg::part2` accepts a round 1 secret and a map of round 1 packages.
pub uninterp spec fn part2_accepts(secret: Origin, packages: Origin) -> bool;

/// `keys::dkg::part3` accepts a round 2 secret, a map of round 1 packages and
/// a map of round 2 packages.
pub uninterp spec fn part3_accepts(secret: Origin, round1: Origin, round2: Origin) -> bool;

/// What `VerifyingKey::serialize` gives for a key; `None` where it fails.
pub uninterp spec fn key_serialization(key: Origin) -> Option<Seq<u8>>;

/// `round2::sign` accepts a signing package, nonces and a key package.
pub uninterp spec fn sign_accepts(package: Origin, nonces: Origin, key: Origin) -> bool;

/// `aggregate` accepts a signing package, signature shares and a public key package.
pub uninterp spec fn aggregate_accepts(package: Origin, shares: Origin, public_keys: Origin) -> bool;

/// `VerifyingKey::verify` accepts a signature for a message under a key.
pub uninterp spec fn signature_verifies(key: Origin, message: Seq<u8>, signature: Origin) -> bool;

/// What `round1::SecretPackage::max_signers` gives for a secret package.
pub uninterp spec fn round1_secret_max_signers(secret: Origin) -> u16;

/// How many coefficients `round1::SecretPackage::coefficients` gives for a
/// secret package.
pub uninterp spec fn round1_secret_coefficient_count(secret: Origin) -> nat;

/// What `round2::SecretPackage::max_signers` gives for a secret package.
pub uninterp spec fn round2_secret_max_signers(secret: Origin) -> u16;

/// What `Signature::serialize` gives for a signature; `None` where it fails.
pub uninterp spec fn signature_serialization(signature: Origin) -> Option<Seq<u8>>;

// ---------------------------------------------------------------------------
// hex
// ---------------------------------------------------------------------------

/// `hex::encode`: each byte as two lowercase hex digits, high half first.
#[verifier::external_body]
pub(crate) fn hex_encode_bytes(bytes: &[u8]) -> (s: String)
    ensures
        s@ == hex_encode(bytes@),
{
    hex::encode(bytes)
}

/// `hex::decode`: succeeds exactly on an even number of hex digits of either
/// case, and then gives the bytes that each pair of digits stands for.
#[verifier::external_body]
pub(crate) fn hex_decode_text(text: &str) -> (r: Result<Vec<u8>, hex::FromHexError>)
    ensures
        (r is Ok) == (hex_decode(text@) is Some),
        r matches Ok(b) ==> hex_decode(text@) == Some(b@),
{
    hex::decode(text)
}

// ---------------------------------------------------------------------------
// serde_json::from_str: the value read is the one the text stands for.
// ---------------------------------------------------------------------------

/// `serde_json::from_str` into a DKG round 1 secret package.
#[verifier::external_body]
pub(crate) fn parse_dkg_round1_secret(json: &str) -> (r: Result<DkgRound1Secret, serde_json::Error>)
    ensures
        (r is Ok) == is_dkg_round1_secret_json(json@),
        r matches Ok(v) ==> v@ == Origin::Parsed(Kind::DkgRound1Secret, json@),
{
    match serde_json::from_str(json) {
        Ok(v) => Ok(Held { raw: RawDkgRound1Secret { inner: v }, origin: Ghost(Origin::Parsed(Kind::DkgRound1Secret, json@)) }),
        Err(e) => Err(e),
    }
}

/// `serde_json::from_str` into a map from identifiers to DKG round 1 packages.
#[verifier::external_body]
pub(crate) fn parse_dkg_round1_package_map(json: &str) -> (r: Result<DkgRound1PackageMap, serde_json::Error>)
    ensures
        (r is Ok) == is_dkg_round1_package_map_json(json@),
        r matches Ok(v) ==> v@ == Origin::Parsed(Kind::DkgRound1PackageMap, json@),
{
    match serde_json::from_str(json) {
        Ok(v) => Ok(Held { raw: RawDkgRound1PackageMap { inner: v }, origin: Ghost(Origin::Parsed(Kind::DkgRound1PackageMap, json@)) }),
        Err(e) => Err(e),
    }
}

/// `serde_json::from_str` into a DKG round 2 secret package.
#[verifier::external_body]
pub(crate) fn parse_dkg_round2_secret(json: &str) -> (r: Result<DkgRound2Secret, serde_json::Error>)
    ensures
        (r is Ok) == is_dkg_round2_secret_json(json@),
        r matches Ok(v) ==> v@ == Origin::Parsed(Kind::DkgRound2Secret, json@),
{
    match serde_json::from_str(json) {
        Ok(v) => Ok(Held { raw: RawDkgRound2Secret { inner: v }, origin: Ghost(Origin::Parsed(Kind::DkgRound2Secret, json@)) }),
        Err(e) => Err(e),
    }
}

/// `serde_json::from_str` into a map from identifiers to DKG round 2 packages.
#[verifier::external_body]
pub(crate) fn parse_dkg_round2_package_map(json: &str) -> (r: Result<DkgRound2PackageMap, serde_json::Error>)
    ensures
        (r is Ok) == is_dkg_round2_package_map_json(json@),
        r matches Ok(v) ==> v@ == Origin::Parsed(Kind::DkgRound2PackageMap, json@),
{
    match serde_json::from_str(json) {
        Ok(v) => Ok(Held { raw: RawDkgRound2PackageMap { inner: v }, origin: Ghost(Origin::Parsed(Kind::DkgRound2PackageMap, json@)) }),
        Err(e) => Err(e),
    }
}

/// `serde_json::from_str` into a key package.
#[verifier::external_body]
pub(crate) fn parse_key_package(json: &str) -> (r: Result<KeyPackage, serde_json::Error>)
    ensures
        (r is Ok) == is_key_package_json(json@),
        r matches Ok(v) ==> v@ == Origin::Parsed(Kind::KeyPackage, json@),
{
    match serde_json::from_str(json) {
        Ok(v) => Ok(Held { raw: RawKeyPackage { inner: v }, origin: Ghost(Origin::Parsed(Kind::KeyPackage, json@)) }),
        Err(e) => Err(e),
    }
}

/// `serde_json::from_str` into signing nonces.
#[verifier::external_body]
pub(crate) fn parse_signing_nonces(json: &str) -> (r: Result<SigningNonces, serde_json::Error>)
    ensures
        (r is Ok) == is_signing_nonces_json(json@),
        r matches Ok(v) ==> v@ == Origin::Parsed(Kind::SigningNonces, json@),
{
    match serde_json::from_str(json) {
        Ok(v) => Ok(Held { raw: RawSigningNonces { inner: v }, origin: Ghost(Origin::Parsed(Kind::SigningNonces, json@)) }),
        Err(e) => Err(e),
    }
}

/// `serde_json::from_str` into a map from identifiers to nonce commitments.
#[verifier::external_body]
pub(crate) fn parse_signing_commitment_map(json: &str) -> (r: Result<SigningCommitmentMap, serde_json::Error>)
    ensures
        (r is Ok) == is_signing_commitment_map_json(json@),
        r matches Ok(v) ==> v@ == Origin::Parsed(Kind::SigningCommitmentMap, json@),
{
    match serde_json::from_str(json) {
        Ok(v) => Ok(Held { raw: RawSigningCommitmentMap { inner: v }, origin: Ghost(Origin::Parsed(Kind::SigningCommitmentMap, json@)) }),
        Err(e) => Err(e),
    }
}

/// `serde_json::from_str` into a map from identifiers to signature shares.
#[verifier::external_body]
pub(crate) fn parse_signature_share_map(json: &str) -> (r: Result<SignatureShareMap, serde_json::Error>)
    ensures
        (r is Ok) == is_signature_share_map_json(json@),
        r matches Ok(v) ==> v@ == Origin::Parsed(Kind::SignatureShareMap, json@),
{
    match serde_json::from_str(json) {
        Ok(v) => Ok(Held { raw: RawSignatureShareMap { inner: v }, origin: Ghost(Origin::Parsed(Kind::SignatureShareMap, json@)) }),
        Err(e) => Err(e),
    }
}

/// `serde_json::from_str` into a public key package.
#[verifier::external_body]
pub(crate) fn parse_public_key_package(json: &str) -> (r: Result<PublicKeyPackage, serde_json::Error>)
    ensures
        (r is Ok) == is_public_key_package_json(json@),
        r matches Ok(v) ==> v@ == Origin::Parsed(Kind::PublicKeyPackage, json@),
{
    match serde_json::from_str(json) {
        Ok(v) => Ok(Held { raw: RawPublicKeyPackage { inner: v }, origin: Ghost(Origin::Parsed(Kind::PublicKeyPackage, json@)) }),
        Err(e) => Err(e),
    }
}

// ---------------------------------------------------------------------------
// serde_json::to_string
// ---------------------------------------------------------------------------

/// `serde_json::to_string` of a DKG round 1 package.
#[verifier::external_body]
pub(crate) fn dkg_round1_package_json(v: &DkgRound1Package) -> (r: Result<String, serde_json::Error>)
    ensures
        (r is Ok) == (json_text(v@) is Some),
        r matches Ok(text) ==> json_text(v@) == Some(text@),
{
    serde_json::to_string(&v.raw.inner)
}

/// `serde_json::to_string` of a DKG round 1 secret package.
#[verifier::external_body]
pub(crate) fn dkg_round1_secret_json(v: &DkgRound1Secret) -> (r: Result<String, serde_json::Error>)
    ensures
        (r is Ok) == (json_text(v@) is Some),
        r matches Ok(text) ==> json_text(v@) == Some(text@),
{
    serde_json::to_string(&v.raw.inner)
}

/// `serde_json::to_string` of a map of DKG round 2 packages.
#[verifier::external_body]
pub(crate) fn dkg_round2_package_map_json(v: &DkgRound2PackageMap) -> (r: Result<String, serde_json::Error>)
    ensures
        (r is Ok) == (json_text(v@) is Some),
        r matches Ok(text) ==> json_text(v@) == Some(text@),
{
    serde_json::to_string(&v.raw.inner)
}

/// `serde_json::to_string` of a DKG round 2 secret package.
#[verifier::external_body]
pub(crate) fn dkg_round2_secret_json(v: &DkgRound2Secret) -> (r: Result<String, serde_json::Error>)
    ensures
        (r is Ok) == (json_text(v@) is Some),
        r matches Ok(text) ==> json_text(v@) == Some(text@),
{
    serde_json::to_string(&v.raw.inner)
}

/// `serde_json::to_string` of a key package.
#[verifier::external_body]
pub(crate) fn key_package_json(v: &KeyPackage) -> (r: Result<String, serde_json::Error>)
    ensures
        (r is Ok) == (json_text(v@) is Some),
        r matches Ok(text) ==> json_text(v@) == Some(text@),
{
    serde_json::to_string(&v.raw.inner)
}

/// `serde_json::to_string` of a public key package.
#[verifier::external_body]
pub(crate) fn public_key_package_json(v: &PublicKeyPackage) -> (r: Result<String, serde_json::Error>)
    ensures
        (r is Ok) == (json_text(v@) is Some),
        r matches Ok(text) ==> json_text(v@) == Some(text@),
{
    serde_json::to_string(&v.raw.inner)
}

/// `serde_json::to_string` of nonce commitments.
#[verifier::external_body]
pub(crate) fn signing_commitments_json(v: &SigningCommitments) -> (r: Result<String, serde_json::Error>)
    ensures
        (r is Ok) == (json_text(v@) is Some),
        r matches Ok(text) ==> json_text(v@) == Some(text@),
{
    serde_json::to_string(&v.raw.inner)
}

/// `serde_json::to_string` of signing nonces.
#[verifier::external_body]
pub(crate) fn signing_nonces_json(v: &SigningNonces) -> (r: Result<String, serde_json::Error>)
    ensures
        (r is Ok) == (json_text(v@) is Some),
        r matches Ok(text) ==> json_text(v@) == Some(text@),
{
    serde_json::to_string(&v.raw.inner)
}

/// `serde_json::to_string` of a signature share.
#[verifier::external_body]
pub(crate) fn signature_share_json(v: &SignatureShare) -> (r: Result<String, serde_json::Error>)
    ensures
        (r is Ok) == (json_text(v@) is Some),
        r matches Ok(text) ==> json_text(v@) == Some(text@),
{
    serde_json::to_string(&v.raw.inner)
}

// ---------------------------------------------------------------------------
// FROST
// ---------------------------------------------------------------------------

/// `Identifier::try_from(u16)`: fails exactly on zero.
#[verifier::external_body]
pub(crate) fn identifier_from_u16(n: u16) -> (r: Result<ParticipantId, CryptoFailure>)
    ensures
        (r is Ok) == (n != 0),
        r matches Ok(id) ==> id@ == Origin::Identifier(n),
{
    match frost_secp256k1_tr::Identifier::try_from(n) {
        Ok(id) => Ok(Held { raw: RawIdentifier { inner: id }, origin: Ghost(Origin::Identifier(n)) }),
        Err(e) => Err(CryptoFailure { inner: e }),
    }
}

/// `keys::dkg::part1` with the operating system's random source. It refuses
/// exactly a threshold below two or above the number of signers: past that
/// check, the secret and the nonce it draws are nonzero, so writing the proof
/// of knowledge cannot fail. Both results come from one draw, for the given
/// identifier and counts.
#[verifier::external_body]
pub(crate) fn dkg_part1(id: ParticipantId, max_signers: u16, min_signers: u16) -> (r: Result<
    (DkgRound1Secret, DkgRound1Package),
    CryptoFailure,
>)
    ensures
        (r is Ok) == (2 <= min_signers && min_signers <= max_signers),
        r matches Ok((s, p)) ==> exists|draw: int|
            s@ == Origin::DkgRound1Secret(draw, Box::new(id@), max_signers, min_signers)
            && p@ == Origin::DkgRound1Package(draw, Box::new(id@), max_signers, min_signers),
{
    let mut rng = rand::rngs::OsRng;
    let origin = id.origin;
    match frost_secp256k1_tr::keys::dkg::part1(id.raw.inner, max_signers, min_signers, &mut rng) {
        Ok((s, p)) => Ok((
            Held { raw: RawDkgRound1Secret { inner: s }, origin: Ghost(Origin::DkgRound1Secret(vstd::pervasive::arbitrary(), Box::new(origin@), max_signers, min_signers)) },
            Held { raw: RawDkgRound1Package { inner: p }, origin: Ghost(Origin::DkgRound1Package(vstd::pervasive::arbitrary(), Box::new(origin@), max_signers, min_signers)) },
        )),
        Err(e) => Err(CryptoFailure { inner: e }),
    }
}

/// `round1::SecretPackage::identifier`: the identifier the package was made for.
#[verifier::external_body]
pub(crate) fn dkg_round1_secret_identifier(s: &DkgRound1Secret) -> (id: ParticipantId)
    ensures
        id@ == Origin::OwnIdentifier(Box::new(s@)),
{
    Held { raw: RawIdentifier { inner: *s.raw.inner.identifier() }, origin: Ghost(Origin::OwnIdentifier(Box::new(s@))) }
}

/// `round2::SecretPackage::identifier`: the identifier the package was made for.
#[verifier::external_body]
pub(crate) fn dkg_round2_secret_identifier(s: &DkgRound2Secret) -> (id: ParticipantId)
    ensures
        id@ == Origin::OwnIdentifier(Box::new(s@)),
{
    Held { raw: RawIdentifier { inner: *s.raw.inner.identifier() }, origin: Ghost(Origin::OwnIdentifier(Box::new(s@))) }
}

/// `round1::SecretPackage::max_signers`: the number of signers recorded.
#[verifier::external_body]
pub(crate) fn dkg_round1_secret_max_signers(s: &DkgRound1Secret) -> (n: u16)
    ensures
        n == round1_secret_max_signers(s@),
{
    *s.raw.inner.max_signers()
}

/// `round1::SecretPackage::coefficients`, counted: how many secret
/// polynomial coefficients the package holds.
#[verifier::external_body]
pub(crate) fn dkg_round1_secret_coefficient_count(s: &DkgRound1Secret) -> (n: usize)
    ensures
        n as nat == round1_secret_coefficient_count(s@),
{
    s.raw.inner.coefficients().len()
}

/// `round2::SecretPackage::max_signers`: the number of signers recorded.
#[verifier::external_body]
pub(crate) fn dkg_round2_secret_max_signers(s: &DkgRound2Secret) -> (n: u16)
    ensures
        n == round2_secret_max_signers(s@),
{
    *s.raw.inner.max_signers()
}

/// `BTreeMap::remove` on a map of round 1 packages: the entry for the
/// identifier, if there is one, is taken out.
#[verifier::external_body]
pub(crate) fn remove_round1_package(packages: &mut DkgRound1PackageMap, id: &ParticipantId)
    ensures
        final(packages)@ == Origin::Without(Box::new(old(packages)@), Box::new(id@)),
{
    packages.raw.inner.remove(&id.raw.inner);
    packages.origin = Ghost(Origin::Without(Box::new(packages.origin@), Box::new(id@)));
}

/// `keys::dkg::part2`. It draws nothing, so what it gives is a function of
/// its inputs. It panics on a secret package that records no signers (the
/// count less one underflows) or holds no coefficients (evaluating the
/// polynomial expects one), so those are ruled out.
#[verifier::external_body]
pub(crate) fn dkg_part2(secret: DkgRound1Secret, packages: &DkgRound1PackageMap) -> (r: Result<
    (DkgRound2Secret, DkgRound2PackageMap),
    CryptoFailure,
>)
    requires
        round1_secret_max_signers(secret@) >= 1,
        round1_secret_coefficient_count(secret@) >= 1,
    ensures
        (r is Ok) == part2_accepts(secret@, packages@),
        r matches Ok((s, p)) ==> s@ == Origin::DkgRound2Secret(Box::new(secret@), Box::new(packages@))
            && p@ == Origin::DkgRound2Packages(Box::new(secret@), Box::new(packages@)),
{
    let so = secret.origin;
    match frost_secp256k1_tr::keys::dkg::part2(secret.raw.inner, &packages.raw.inner) {
        Ok((s, p)) => Ok((
            Held { raw: RawDkgRound2Secret { inner: s }, origin: Ghost(Origin::DkgRound2Secret(Box::new(so@), Box::new(packages.origin@))) },
            Held { raw: RawDkgRound2PackageMap { inner: p }, origin: Ghost(Origin::DkgRound2Packages(Box::new(so@), Box::new(packages.origin@))) },
        )),
        Err(e) => Err(CryptoFailure { inner: e }),
    }
}

/// `keys::dkg::part3`. It draws nothing, so what it gives is a function of
/// its inputs. It panics, where overflow is checked, on a secret package that
/// records no signers (the count less one underflows), so that is ruled out.
#[verifier::external_body]
pub(crate) fn dkg_part3(
    secret: &DkgRound2Secret,
    round1: &DkgRound1PackageMap,
    round2: &DkgRound2PackageMap,
) -> (r: Result<(KeyPackage, PublicKeyPackage), CryptoFailure>)
    requires
        round2_secret_max_signers(secret@) >= 1,
    ensures
        (r is Ok) == part3_accepts(secret@, round1@, round2@),
        r matches Ok((k, p)) ==> k@ == Origin::KeyPackage(Box::new(secret@), Box::new(round1@), Box::new(round2@))
            && p@ == Origin::PublicKeyPackage(Box::new(secret@), Box::new(round1@), Box::new(round2@)),
{
    match frost_secp256k1_tr::keys::dkg::part3(&secret.raw.inner, &round1.raw.inner, &round2.raw.inner) {
        Ok((k, p)) => Ok((
            Held { raw: RawKeyPackage { inner: k }, origin: Ghost(Origin::KeyPackage(Box::new(secret.origin@), Box::new(round1.origin@), Box::new(round2.origin@))) },
            Held { raw: RawPublicKeyPackage { inner: p }, origin: Ghost(Origin::PublicKeyPackage(Box::new(secret.origin@), Box::new(round1.origin@), Box::new(round2.origin@))) },
        )),
        Err(e) => Err(CryptoFailure { inner: e }),
    }
}

/// `PublicKeyPackage::verifying_key`: the group's verifying key.
#[verifier::external_body]
pub(crate) fn group_verifying_key(p: &PublicKeyPackage) -> (k: GroupVerifyingKey)
    ensures
        k@ == Origin::GroupKey(Box::new(p@)),
{
    Held { raw: RawVerifyingKey { inner: *p.raw.inner.verifying_key() }, origin: Ghost(Origin::GroupKey(Box::new(p.origin@))) }
}

/// `VerifyingKey::serialize`: on success, the 33 bytes of a compressed point.
#[verifier::external_body]
pub(crate) fn verifying_key_bytes(k: &GroupVerifyingKey) -> (r: Result<Vec<u8>, CryptoFailure>)
    ensures
        (r is Ok) == (key_serialization(k@) is Some),
        r matches Ok(b) ==> key_serialization(k@) == Some(b@) && b@.len() == 33,
{
    match k.raw.inner.serialize() {
        Ok(b) => Ok(b),
        Err(e) => Err(CryptoFailure { inner: e }),
    }
}

/// `KeyPackage::signing_share`: the participant's secret share.
#[verifier::external_body]
pub(crate) fn key_signing_share(k: &KeyPackage) -> (s: SigningShare)
    ensures
        s@ == Origin::SigningShare(Box::new(k@)),
{
    Held { raw: RawSigningShare { inner: *k.raw.inner.signing_share() }, origin: Ghost(Origin::SigningShare(Box::new(k.origin@))) }
}

/// `round1::commit` with the operating system's random source: fresh nonces
/// for the share, from one draw, and the commitments those nonces carry. It
/// does not fail.
#[verifier::external_body]
pub(crate) fn commit_nonces(share: &SigningShare) -> (r: (SigningNonces, SigningCommitments))
    ensures
        exists|draw: int| r.0@ == Origin::SigningNonces(draw, Box::new(share@)),
        r.1@ == Origin::Commitments(Box::new(r.0@)),
{
    let mut rng = rand::rngs::OsRng;
    let (n, c) = frost_secp256k1_tr::round1::commit(&share.raw.inner, &mut rng);
    let ghost nonces = Origin::SigningNonces(vstd::pervasive::arbitrary(), Box::new(share.origin@));
    (
        Held { raw: RawSigningNonces { inner: n }, origin: Ghost(nonces) },
        Held { raw: RawSigningCommitments { inner: c }, origin: Ghost(Origin::Commitments(Box::new(nonces))) },
    )
}

/// `SigningPackage::new`: the commitments and the message to be signed. It
/// does not fail.
#[verifier::external_body]
pub(crate) fn signing_package(commitments: SigningCommitmentMap, message: &[u8]) -> (p: SigningPackage)
    ensures
        p@ == Origin::SigningPackage(Box::new(commitments@), message@),
{
    let origin = Ghost(Origin::SigningPackage(Box::new(commitments.origin@), message@));
    Held { raw: RawSigningPackage { inner: frost_secp256k1_tr::SigningPackage::new(commitments.raw.inner, message) }, origin }
}

/// `round2::sign`. It draws nothing, so what it gives is a function of its
/// inputs.
#[verifier::external_body]
pub(crate) fn sign_share(
    package: &SigningPackage,
    nonces: &SigningNonces,
    key: &KeyPackage,
) -> (r: Result<SignatureShare, CryptoFailure>)
    ensures
        (r is Ok) == sign_accepts(package@, nonces@, key@),
        r matches Ok(s) ==> s@ == Origin::SignatureShare(Box::new(package@), Box::new(nonces@), Box::new(key@)),
{
    match frost_secp256k1_tr::round2::sign(&package.raw.inner, &nonces.raw.inner, &key.raw.inner) {
        Ok(s) => Ok(Held { raw: RawSignatureShare { inner: s }, origin: Ghost(Origin::SignatureShare(Box::new(package.origin@), Box::new(nonces.origin@), Box::new(key.origin@))) }),
        Err(e) => Err(CryptoFailure { inner: e }),
    }
}

/// `aggregate`. It draws nothing, so what it gives is a function of its
/// inputs. It returns a signature only after `VerifyingKey::verify` accepts
/// it for the package's message under the group key (in the even-y form that
/// verification itself takes again); when that check fails it reports an
/// error, whether or not a faulty share is found.
#[verifier::external_body]
pub(crate) fn aggregate_shares(
    package: &SigningPackage,
    shares: &SignatureShareMap,
    public_keys: &PublicKeyPackage,
) -> (r: Result<GroupSignature, CryptoFailure>)
    ensures
        (r is Ok) == aggregate_accepts(package@, shares@, public_keys@),
        r matches Ok(s) ==> s@ == Origin::Signature(Box::new(package@), Box::new(shares@), Box::new(public_keys@)),
        r matches Ok(s) ==> (package@ matches Origin::SigningPackage(_, message) ==> signature_verifies(
            Origin::GroupKey(Box::new(public_keys@)),
            message,
            s@,
        )),
{
    match frost_secp256k1_tr::aggregate(&package.raw.inner, &shares.raw.inner, &public_keys.raw.inner) {
        Ok(s) => Ok(Held { raw: RawSignature { inner: s }, origin: Ghost(Origin::Signature(Box::new(package.origin@), Box::new(shares.origin@), Box::new(public_keys.origin@))) }),
        Err(e) => Err(CryptoFailure { inner: e }),
    }
}

/// `Signature::serialize`: on success, the 64 bytes of a BIP-340 signature
/// (the x coordinate of R, then z).
#[verifier::external_body]
pub(crate) fn signature_bytes(s: &GroupSignature) -> (r: Result<Vec<u8>, CryptoFailure>)
    ensures
        (r is Ok) == (signature_serialization(s@) is Some),
        r matches Ok(b) ==> signature_serialization(s@) == Some(b@) && b@.len() == 64,
{
    match s.raw.inner.serialize() {
        Ok(b) => Ok(b),
        Err(e) => Err(CryptoFailure { inner: e }),
    }
}

} // verus!
