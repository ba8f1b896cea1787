//! Arm CCA attesters and the CCA token utilities.
use vstd::prelude::*;
use crate::attesters::ratsd::{RatsdError, ratsd_error_text};
use crate::text::{concat2, decimal, owned, usize_to_decimal};
use crate::tsm::{TsmError, TsmReport, TsmReportBuilder};

pub mod ratsd;
pub mod utils;
pub mod simulated;

pub use simulated::CcaSimulatedAttester;

verus! {

/// Arm CCA nonce size in bytes, as required by the CCA specification
/// (draft-ffm-rats-cca-token).
pub const NONCE_SIZE: usize = 64;

/// Errors of the CCA attesters and token utilities.
#[derive(Debug)]
pub enum CcaError {
    Tsm(TsmError),
    InvalidNonce(String),
    Custom(String),
    Ratsd(RatsdError),
}

impl CcaError {
    /// An error carrying a free-form message.
    pub fn custom(msg: &str) -> (r: Self)
        ensures
            r matches CcaError::Custom(m) && m@ == msg@,
    {
        CcaError::Custom(owned(msg))
    }

    /// The human-readable text of the error (for a RATSD error: the prefix
    /// followed by the RATSD error's own text).
    pub fn to_string(&self) -> (r: String)
        ensures
            match self {
                CcaError::Tsm(_) => r@ == "TSM error"@,
                CcaError::InvalidNonce(m) => r@ == "invalid nonce: "@ + m@,
                CcaError::Custom(m) => r@ == m@,
                CcaError::Ratsd(e) => r@.len() >= 13 && r@.subrange(0, 13) == "RATSD error: "@
                    && (ratsd_error_text(*e) matches Some(t) ==> r@ == "RATSD error: "@ + t),
            },
    {
        match self {
            CcaError::Tsm(_) => owned("TSM error"),
            CcaError::InvalidNonce(m) => concat2("invalid nonce: ", m.as_str()),
            CcaError::Custom(m) => m.clone(),
            CcaError::Ratsd(e) => {
                let r = concat2("RATSD error: ", e.to_string().as_str());
                proof {
                    reveal_strlit("RATSD error: ");
                }
                assert(r@.subrange(0, 13) =~= "RATSD error: "@);
                r
            },
        }
    }
}

impl From<TsmError> for CcaError {
    fn from(e: TsmError) -> (r: Self)
        ensures
            r == CcaError::Tsm(e),
    {
        CcaError::Tsm(e)
    }
}

impl vstd::std_specs::convert::FromSpecImpl<TsmError> for CcaError {
    open spec fn obeys_from_spec() -> bool {
        true
    }

    open spec fn from_spec(v: TsmError) -> Self {
        CcaError::Tsm(v)
    }
}

impl From<RatsdError> for CcaError {
    fn from(e: RatsdError) -> (r: Self)
        ensures
            r == CcaError::Ratsd(e),
    {
        CcaError::Ratsd(e)
    }
}

impl vstd::std_specs::convert::FromSpecImpl<RatsdError> for CcaError {
    open spec fn obeys_from_spec() -> bool {
        true
    }

    open spec fn from_spec(v: RatsdError) -> Self {
        CcaError::Ratsd(v)
    }
}

/// The message of the error that rejects a challenge of `len` bytes.
pub open spec fn invalid_nonce_text(len: nat) -> Seq<char> {
    "expected 64 bytes, got "@ + decimal(len)
}

/// Every CCA attester accepts exactly a [`NONCE_SIZE`]-byte challenge; any
/// other length is rejected with `InvalidNonce`.
pub fn check_nonce(challenge: &[u8]) -> (r: Result<(), CcaError>)
    ensures
        r is Ok <==> challenge@.len() == NONCE_SIZE,
        r matches Err(e) ==> e matches CcaError::InvalidNonce(m) && m@ == invalid_nonce_text(
            challenge@.len(),
        ),
{
    if challenge.len() != NONCE_SIZE {
        let msg = concat2("expected 64 bytes, got ", usize_to_decimal(challenge.len()).as_str());
        return Err(CcaError::InvalidNonce(msg));
    }
    Ok(())
}

/// What the outcome of a builder's `get_report` becomes: the report itself,
/// or its error as [`CcaError::Tsm`].
pub open spec fn tsm_report_result(res: Result<TsmReport, TsmError>) -> Result<TsmReport, CcaError> {
    match res {
        Ok(report) => Ok(report),
        Err(e) => Err(CcaError::Tsm(e)),
    }
}

/// Hands `inblob` to the builder and asks it for the report; a failure of
/// the builder comes back as [`CcaError::Tsm`].
pub fn get_tsm_report<B: TsmReportBuilder>(generator: B, inblob: Vec<u8>) -> (r: Result<
    TsmReport,
    CcaError,
>)
    ensures
        exists|b: B, res: Result<TsmReport, TsmError>|
            call_ensures(B::inblob, (generator, inblob), b) && call_ensures(
                B::get_report,
                (b,),
                res,
            ) && r == tsm_report_result(res),
{
    let b = generator.inblob(inblob);
    let res = b.get_report();
    let r = match res {
        Ok(report) => Ok(report),
        Err(e) => Err(CcaError::Tsm(e)),
    };
    r
}

} // verus!
