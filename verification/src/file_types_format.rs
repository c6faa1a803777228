//! The classification columns of the file-extension format tables:
//! openness, text-or-binary form, and source-or-export role of a file
//! format.

use vstd::prelude::*;
use vstd::string::StringExecFns;

use crate::strutil::str_eq;

verus! {

/// How open a file format is.
#[derive(Debug, Clone, Copy, PartialEq, Eq, Structural)]
pub enum Openness {
    Open,
    Proprietary,
    Unknown,
}

impl From<Option<bool>> for Openness {
    /// The optional-boolean form of the openness column: known-open,
    /// known-proprietary, or unknown.
    fn from(val: Option<bool>) -> (r: Self) {
        match val {
            Option::Some(true) => Openness::Open,
            Option::Some(false) => Openness::Proprietary,
            Option::None => Openness::Unknown,
        }
    }
}

impl vstd::std_specs::convert::FromSpecImpl<Option<bool>> for Openness {
    open spec fn obeys_from_spec() -> bool {
        true
    }

    open spec fn from_spec(val: Option<bool>) -> Self {
        match val {
            Option::Some(true) => Openness::Open,
            Option::Some(false) => Openness::Proprietary,
            Option::None => Openness::Unknown,
        }
    }
}

impl Openness {
    /// Reads an openness column value; anything but `open`,
    /// `proprietary` or `unknown` is rejected, naming the value.
    pub fn try_from(val: &str) -> (r: Result<Openness, String>)
        ensures
            r is Ok <==> (val@ == "open"@ || val@ == "proprietary"@ || val@ == "unknown"@),
            r matches Ok(o) ==> o == (if val@ == "open"@ {
                Openness::Open
            } else if val@ == "proprietary"@ {
                Openness::Proprietary
            } else {
                Openness::Unknown
            }),
            r matches Err(e) ==> e@ == "Invalid Open column value: '"@ + val@ + "'"@,
    {
        if str_eq(val, "open") {
            Result::Ok(Openness::Open)
        } else if str_eq(val, "proprietary") {
            Result::Ok(Openness::Proprietary)
        } else if str_eq(val, "unknown") {
            Result::Ok(Openness::Unknown)
        } else {
            let mut msg = String::from_str("Invalid Open column value: '");
            msg.append(val);
            msg.append("'");
            Result::Err(msg)
        }
    }
}

/// Whether a file format is textual or binary.
#[derive(Debug, Clone, Copy, PartialEq, Eq, Structural)]
pub enum Format {
    Text,
    Binary,
    Both,
    Unknown,
}

impl Format {
    /// Reads a text-or-binary column value; anything but `text`,
    /// `binary`, `both` or `unknown` is rejected, naming the value.
    pub fn try_from(val: &str) -> (r: Result<Format, String>)
        ensures
            r is Ok <==> (val@ == "text"@ || val@ == "binary"@ || val@ == "both"@ || val@
                == "unknown"@),
            r matches Ok(o) ==> o == (if val@ == "text"@ {
                Format::Text
            } else if val@ == "binary"@ {
                Format::Binary
            } else if val@ == "both"@ {
                Format::Both
            } else {
                Format::Unknown
            }),
            r matches Err(e) ==> e@ == "Invalid Text column value: '"@ + val@ + "'"@,
    {
        if str_eq(val, "text") {
            Result::Ok(Format::Text)
        } else if str_eq(val, "binary") {
            Result::Ok(Format::Binary)
        } else if str_eq(val, "both") {
            Result::Ok(Format::Both)
        } else if str_eq(val, "unknown") {
            Result::Ok(Format::Unknown)
        } else {
            let mut msg = String::from_str("Invalid Text column value: '");
            msg.append(val);
            msg.append("'");
            Result::Err(msg)
        }
    }
}

/// Whether files of a format are source artifacts or exports.
#[derive(Debug, Clone, Copy, PartialEq, Eq, Structural)]
pub enum Source {
    Source,
    Export,
}

impl From<bool> for Source {
    /// The boolean form of the source column.
    fn from(val: bool) -> (r: Self) {
        if val {
            Source::Source
        } else {
            Source::Export
        }
    }
}

impl vstd::std_specs::convert::FromSpecImpl<bool> for Source {
    open spec fn obeys_from_spec() -> bool {
        true
    }

    open spec fn from_spec(val: bool) -> Self {
        if val {
            Source::Source
        } else {
            Source::Export
        }
    }
}

impl Source {
    /// Reads a source column value; anything but `source` or `export` is
    /// rejected, naming the value.
    pub fn try_from(val: &str) -> (r: Result<Source, String>)
        ensures
            r is Ok <==> (val@ == "source"@ || val@ == "export"@),
            r matches Ok(o) ==> o == (if val@ == "source"@ {
                Source::Source
            } else {
                Source::Export
            }),
            r matches Err(e) ==> e@ == "Invalid Source column value: '"@ + val@ + "'"@,
    {
        if str_eq(val, "source") {
            Result::Ok(Source::Source)
        } else if str_eq(val, "export") {
            Result::Ok(Source::Export)
        } else {
            let mut msg = String::from_str("Invalid Source column value: '");
            msg.append(val);
            msg.append("'");
            Result::Err(msg)
        }
    }
}

/// One row of a file-extension format table: the extension and its three
/// classification columns.
pub struct FileFormat<S> {
    /// The file extension this row classifies.
    pub extension: S,
    /// How open the format is.
    pub open: Openness,
    /// Whether the format is textual or binary.
    pub text: Format,
    /// Whether files of this format are sources or exports.
    pub source: Source,
}

} // verus!
