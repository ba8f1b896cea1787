//! Simulated CCA attester: builds a structurally valid CCA token (CBOR tag
//! 399) with two ES384 COSE_Sign1 tokens (platform and realm) from claims
//! and keys, without hardware.
//!
//! The application reads the files; the library reads no environment.
use vstd::prelude::*;
use crate::attesters::Attester;
use super::{CcaError, NONCE_SIZE, check_nonce, invalid_nonce_text};
use super::utils::crypto::{P384SigningKey, jwk_loads, jwk_public_point};
use super::utils::encode::{
    SimulatedTokenBuilder, lemma_build_token_different_nonces, platform_claims_valid,
    realm_claims_valid,
};
use super::utils::types::CcaToken;

verus! {

/// Simulated CCA attester that builds tokens from claims and keys.
pub struct CcaSimulatedAttester {
    builder: SimulatedTokenBuilder,
}

impl CcaSimulatedAttester {
    /// The token builder behind the attester.
    pub closed spec fn spec_builder(&self) -> SimulatedTokenBuilder {
        self.builder
    }

    /// Whether `r` is what asking for evidence on `challenge` gives: the
    /// token for a 64-byte challenge (as the builder builds it), and an
    /// `InvalidNonce` error for any other length.
    pub open spec fn evidence_outcome(&self, challenge: Seq<u8>, r: Result<Vec<u8>, CcaError>) -> bool {
        &&& challenge.len() != NONCE_SIZE ==> (r matches Err(CcaError::InvalidNonce(m)) && m@
            == invalid_nonce_text(challenge.len()))
        &&& challenge.len() == NONCE_SIZE ==> self.spec_builder().token_outcome(challenge, r)
    }

    /// Create a simulated attester from claims and the JWK texts of the
    /// keys; without a RAK text a random RAK is drawn.
    pub fn new(claims: CcaToken, iak_jwk: &str, rak_jwk: Option<&str>) -> (r: Result<
        Self,
        CcaError,
    >)
        ensures
            r is Ok <==> jwk_loads(iak_jwk@) && (rak_jwk matches Some(t) ==> jwk_loads(t@)),
            r matches Ok(a) ==> {
                &&& a.spec_builder().claims_view() == claims@
                &&& a.spec_builder().iak_view() == jwk_public_point(iak_jwk@)
                &&& rak_jwk matches Some(t) ==> a.spec_builder().rak_view() == jwk_public_point(t@)
            },
            r matches Err(e) ==> e is Custom,
    {
        match SimulatedTokenBuilder::new(claims, iak_jwk, rak_jwk) {
            Ok(builder) => Ok(CcaSimulatedAttester { builder }),
            Err(e) => Err(e),
        }
    }

    /// Create a simulated attester from claims and P-384 signing keys.
    pub fn with_keys(claims: CcaToken, iak: P384SigningKey, rak: P384SigningKey) -> (r: Result<
        Self,
        CcaError,
    >)
        ensures
            r matches Ok(a) && a.spec_builder().claims_view() == claims@
                && a.spec_builder().iak_view() == iak@ && a.spec_builder().rak_view() == rak@,
    {
        match SimulatedTokenBuilder::with_keys(claims, iak, rak) {
            Ok(builder) => Ok(CcaSimulatedAttester { builder }),
            Err(e) => Err(e),
        }
    }
}

impl Attester for CcaSimulatedAttester {
    type AttesterError = CcaError;

    /// The token for a 64-byte challenge; any other length is refused with
    /// `InvalidNonce` before anything is built.
    fn get_evidence(&self, challenge: &[u8]) -> (r: Result<Vec<u8>, CcaError>)
        ensures
            self.evidence_outcome(challenge@, r),
            challenge@.len() == NONCE_SIZE && platform_claims_valid(
                self.spec_builder().claims_view().platform,
            ) && realm_claims_valid(self.spec_builder().claims_view().realm) ==> r is Ok,
    {
        match check_nonce(challenge) {
            Ok(()) => {},
            Err(e) => return Err(e),
        }
        self.builder.build_token(challenge)
    }
}

/// The simulated evidence is deterministic: asking the same attester twice
/// for evidence on the same challenge gives the same token, or fails both
/// times.
pub proof fn lemma_get_evidence_deterministic(
    a: CcaSimulatedAttester,
    challenge: Seq<u8>,
    r1: Result<Vec<u8>, CcaError>,
    r2: Result<Vec<u8>, CcaError>,
)
    requires
        a.evidence_outcome(challenge, r1),
        a.evidence_outcome(challenge, r2),
    ensures
        r1 is Ok <==> r2 is Ok,
        r1 is Ok ==> r1->Ok_0@ == r2->Ok_0@,
{
}

/// The simulated evidence differs for different 64-byte challenges.
pub proof fn lemma_get_evidence_different_challenges(
    a: CcaSimulatedAttester,
    c1: Seq<u8>,
    c2: Seq<u8>,
    r1: Result<Vec<u8>, CcaError>,
    r2: Result<Vec<u8>, CcaError>,
)
    requires
        a.evidence_outcome(c1, r1),
        a.evidence_outcome(c2, r2),
        r1 is Ok,
        r2 is Ok,
        c1 != c2,
    ensures
        r1->Ok_0@ != r2->Ok_0@,
{
    lemma_build_token_different_nonces(a.spec_builder(), c1, c2, r1, r2);
}

} // verus!
