//! CCA token utilities: claim types, encoding, decoding and signing.
pub mod cbor;
pub mod constants;
pub mod crypto;
pub mod types;

pub use types::{CcaToken, PlatformClaims, RealmClaims, SwComponent};
pub mod encode;

pub use encode::encode_cca_token;
pub mod decode;

pub use decode::decode_cca_token;
