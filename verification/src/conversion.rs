//! Conversion between manifest format versions.

pub mod v1_to_v2;

use vstd::prelude::*;

verus! {

/// Why a manifest could not be converted.
#[derive(Debug)]
pub enum Error {
    /// The source meta-data specifies no license.
    NoLicense,
    /// Insufficient data found in the source.
    InsufficientData {
        /// What was missing.
        msg: &'static str,
    },
}

} // verus!
