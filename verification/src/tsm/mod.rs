//! Linux TSM (configfs-tsm) report interface.
use vstd::prelude::*;

pub mod error;
pub mod linuxtsm;

pub use error::TsmError;

verus! {

/// The blobs that a TSM report instance emits.
#[derive(Debug)]
pub struct TsmReport {
    /// outblob that contains the report
    pub outblob: Vec<u8>,
    /// auxblob containing auxiliary data
    pub auxblob: Vec<u8>,
    /// manifest blob
    pub manifestblob: Vec<u8>,
}

impl Default for TsmReport {
    /// A report with all three blobs empty.
    fn default() -> (r: Self)
        ensures
            r.outblob@.len() == 0,
            r.auxblob@.len() == 0,
            r.manifestblob@.len() == 0,
    {
        TsmReport { outblob: Vec::new(), auxblob: Vec::new(), manifestblob: Vec::new() }
    }
}

/// Trait implemented by builders of a [`TsmReport`].
///
/// The constructor of the builder creates the report instance.  The methods
/// inspect the instance and turn it into the report (reading what the TSM
/// emits).
pub trait TsmReportBuilder: Sized {
    /// get the provider attribute
    fn provider(&self) -> String;

    /// get the privlevel_floor attribute
    fn privlevel_floor(&self) -> u32;

    /// set inblob.  The actual write may happen only when the report is
    /// requested.
    fn inblob(self, blob: Vec<u8>) -> Self;

    /// set privlevel
    fn privlevel(self, lev: u32) -> Self;

    /// set service_provider
    fn service_provider(self, provider: String) -> Self;

    /// set service_guid
    fn service_guid(self, guid: [u8; 16]) -> Self;

    /// construct the report, reading the blobs emitted by the TSM
    fn get_report(self) -> Result<TsmReport, TsmError>;
}

} // verus!
