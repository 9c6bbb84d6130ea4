pub mod bindings;
pub mod dkg;
pub mod error;
pub mod hex_codec;
pub mod laws;
pub mod origin;
pub mod signing;
pub mod version;

pub use dkg::{frost_dkg_round1_generate, frost_dkg_round2_generate_shares, frost_dkg_round3_finalize};
pub use error::{status_code, FrostError};
pub use signing::{frost_sign_aggregate, frost_sign_round1_nonces, frost_sign_round2_signature};
pub use version::frost_get_version;
