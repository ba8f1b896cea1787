//! Attesters: sources of attestation evidence.
use vstd::prelude::*;

pub mod cca;
pub mod ratsd;

verus! {

/// A source of attestation evidence for a given challenge.
pub trait Attester {
    type AttesterError;

    fn get_evidence(&self, challenge: &[u8]) -> Result<Vec<u8>, Self::AttesterError>;
}

} // verus!
