//! Collection of attestation evidence from TEE platforms, with the token
//! construction, decoding and validation logic verified by Verus.
pub mod attesters;
pub mod text;
pub mod tsm;
