//! The contents of an OKH v2 (LOSH) manifest, as plain values.

use vstd::prelude::*;

use crate::oxrl::Odrl;
use crate::oxrl::Otrl;

verus! {

/// The version marker every v2 manifest carries.
pub fn okhv() -> (r: &'static str)
    ensures
        r@ == "OKH-LOSHv1.0"@,
{
    "OKH-LOSHv1.0"
}

/// The file name a v2 manifest is stored under.
pub fn manifest_file_name() -> (r: &'static str)
    ensures
        r@ == "okh.toml"@,
{
    "okh.toml"
}

/// A piece of software belonging to the hardware.
pub struct Software {
    pub label: Option<String>,
    /// URL of the software's release, in textual form.
    pub release: Option<String>,
}

/// A sub-module of the hardware ("sub-MOSH"): an independent part with
/// its own manifest.
pub struct SubMosh {
    pub name: Option<String>,
    /// URL of the part's manifest file, in textual form.
    pub manifest_file: Option<String>,
    /// URL of the part's repository, in textual form.
    pub repo: Option<String>,
}

/// The contents of an OKH v2 (LOSH) manifest.
pub struct Okh {
    pub okhv: String,
    pub name: String,
    /// URL of the project repository, in textual form.
    pub repo: String,
    pub version: String,
    /// An SPDX license expression.
    pub license: String,
    pub licensor: String,
    pub organisation: Option<String>,
    /// Repo-relative path of the readme, in textual form.
    pub readme: Option<String>,
    pub contribution_guide: Option<String>,
    pub image: Vec<String>,
    pub documentation_language: Option<String>,
    pub attestation: Vec<String>,
    pub standard_compliance: Vec<String>,
    pub cpc_patent_class: Option<String>,
    pub tsdc: Option<String>,
    pub bom: Option<String>,
    pub release: Option<String>,
    pub timestamp: Option<String>,
    pub fork_of: Option<String>,
    pub function: Option<String>,
    pub documentation_readiness_level: Option<Odrl>,
    pub technology_readiness_level: Option<Otrl>,
    pub user_manual: Option<String>,
    pub manufacturing_instructions: Vec<String>,
    pub software: Vec<Software>,
    pub standard: Vec<String>,
    pub source: Vec<String>,
    pub export: Vec<String>,
    pub auxiliary: Vec<String>,
    pub part: Vec<SubMosh>,
}

} // verus!
