//! The contents of an OKH v1 manifest, as plain values.

use vstd::prelude::*;
use vstd::string::StringExecFns;

verus! {

/// A document reference: an optional title and an optional location (a
/// repo-relative path or URL, in textual form).
pub struct Document {
    pub title: Option<String>,
    pub path: Option<String>,
}

/// The licenses a v1 manifest may declare, one per concern.
pub struct License {
    /// The license under which the hardware is released.
    pub hardware: Option<String>,
    /// The license under which the documentation is released.
    pub documentation: Option<String>,
    /// The license under which the software is released.
    pub software: Option<String>,
}

/// A person, as a v1 manifest names one.
pub struct Person {
    pub name: Option<String>,
    pub affiliation: Option<String>,
    pub email: Option<String>,
}

/// A standard the hardware follows.
pub struct Standard {
    pub reference: String,
    pub standard_title: String,
}

/// A reference to another project: by manifest URL, by web page, or
/// both.
pub struct OtherThing {
    pub title: Option<String>,
    pub manifest: Option<String>,
    pub web: Option<String>,
}

/// A reference to another project in a given language.
pub struct OtherThingWithLang {
    pub title: Option<String>,
    pub manifest: Option<String>,
    pub web: Option<String>,
    pub lang: Option<String>,
}

/// The default value of the v1 `okh-manifest-version` field.
pub fn default_okh_manifest_version() -> (r: Option<String>)
    ensures
        (r matches Some(s) && s@ == "1.0.0"@),
{
    Option::Some(String::from_str("1.0.0"))
}

/// The contents of an OKH v1 manifest.
pub struct Okh {
    /// Name of the hardware.
    pub title: String,
    /// Description of the hardware.
    pub description: String,
    /// Intended use for the hardware.
    pub intended_use: Option<String>,
    pub keywords: Vec<String>,
    /// Link to the project.
    pub project_link: Option<String>,
    /// Link to an image.
    pub image: Option<String>,
    /// Someone has made this hardware.
    pub made: bool,
    /// Someone independent has made this hardware.
    pub made_independently: bool,
    pub license: License,
    /// Who granted the license.
    pub licensor: Option<Person>,
    pub okh_manifest_version: Option<String>,
    pub date_created: Option<String>,
    pub date_updated: Option<String>,
    pub version: Option<String>,
    pub development_stage: Option<String>,
    pub documentation_home: Option<String>,
    pub archive_download: Option<String>,
    pub documentation_language: Option<String>,
    pub bom: Option<String>,
    pub making_instructions: Vec<Document>,
    pub operating_instructions: Vec<Document>,
    pub software: Vec<Document>,
    pub health_safety_notice: Option<String>,
    pub standards_used: Vec<Standard>,
    pub derivative_of: Option<OtherThing>,
    pub variant_of: Option<OtherThing>,
    pub sub_parts: Vec<OtherThing>,
}

impl Okh {
    /// The project's main URL: the project link, or failing that the
    /// documentation home.
    pub fn main_url(&self) -> (r: Option<&String>)
        ensures
            self.project_link matches Some(u) ==> (r matches Some(s) && *s == u),
            self.documentation_home matches Some(u) ==> (self.project_link is None ==> (r matches
            Some(s) && *s == u)),
            (self.project_link is None && self.documentation_home is None) ==> r is None,
    {
        match &self.project_link {
            Option::Some(u) => Option::Some(u),
            Option::None => self.documentation_home.as_ref(),
        }
    }

    /// Whether at least one of the three licenses is declared; a v1
    /// manifest without any is rejected when read.
    pub fn has_license(&self) -> (r: bool)
        ensures
            r == (self.license.documentation is Some || self.license.hardware is Some
                || self.license.software is Some),
    {
        self.license.documentation.is_some() || self.license.hardware.is_some()
            || self.license.software.is_some()
    }
}

} // verus!
