//! A model of the FROST values the library holds: each value is described by
//! how it came to be, from the texts and numbers the library was given.
//!
//! Two values with the same origin are equal, since every step they come
//! from, but for the random draws, is a function of its inputs alone. A
//! random draw is told apart from the others by a number and by nothing else.
use vstd::prelude::*;

verus! {

/// The FROST type that a JSON text is read as.
pub enum Kind {
    DkgRound1Secret,
    DkgRound1PackageMap,
    DkgRound2Secret,
    DkgRound2PackageMap,
    KeyPackage,
    SigningNonces,
    SigningCommitmentMap,
    SignatureShareMap,
    PublicKeyPackage,
}

/// How a FROST value came to be.
pub enum Origin {
    /// Read from a JSON text as the given type.
    Parsed(Kind, Seq<char>),
    /// The participant identifier made from a number.
    Identifier(u16),
    /// The secret package of DKG part 1, from a draw, for an identifier,
    /// a number of signers and a threshold (in that order).
    DkgRound1Secret(int, Box<Origin>, u16, u16),
    /// The package broadcast by DKG part 1, from the same draw and parameters.
    DkgRound1Package(int, Box<Origin>, u16, u16),
    /// The identifier recorded in a DKG secret package.
    OwnIdentifier(Box<Origin>),
    /// A map with the entry for an identifier taken out.
    Without(Box<Origin>, Box<Origin>),
    /// The secret package of DKG part 2, from a round 1 secret and the other
    /// participants' round 1 packages.
    DkgRound2Secret(Box<Origin>, Box<Origin>),
    /// The round 2 packages for the other participants, from the same inputs.
    DkgRound2Packages(Box<Origin>, Box<Origin>),
    /// The key package of DKG part 3, from a round 2 secret, the other
    /// participants' round 1 packages and the round 2 packages received.
    KeyPackage(Box<Origin>, Box<Origin>, Box<Origin>),
    /// The public key package of DKG part 3, from the same inputs.
    PublicKeyPackage(Box<Origin>, Box<Origin>, Box<Origin>),
    /// The group verifying key of a public key package.
    GroupKey(Box<Origin>),
    /// The signing share of a key package.
    SigningShare(Box<Origin>),
    /// Signing nonces, from a draw, for a signing share.
    SigningNonces(int, Box<Origin>),
    /// The public commitments of signing nonces.
    Commitments(Box<Origin>),
    /// A signing package, from nonce commitments and message bytes.
    SigningPackage(Box<Origin>, Seq<u8>),
    /// A signature share, from a signing package, nonces and a key package.
    SignatureShare(Box<Origin>, Box<Origin>, Box<Origin>),
    /// An aggregate signature, from a signing package, signature shares and a
    /// public key package.
    Signature(Box<Origin>, Box<Origin>, Box<Origin>),
}

} // verus!
