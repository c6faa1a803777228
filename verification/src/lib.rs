//! Classifies how well a project's directory layout conforms to named
//! directory standards, and scans path listings into filtered groups.
//!
//! The core pieces are:
//! - [`scan`]: groups the entries of a path listing by independent
//!   regular-expression filters over a chosen path projection;
//! - [`dir_std`]: loads weighted path-rule standards, evaluates a path
//!   listing against them, and derives conformance ratings and
//!   module-directory sets;
//! - [`formats`] and [`conversion`]: the manifest data model and the
//!   mapping from the v1 manifest format to the v2 format.

pub mod codify;
pub mod conversion;
pub mod dir_std;
pub mod formats;
pub mod file_types_format;
pub mod license;
pub mod oxrl;
pub mod pattern;
pub mod scan;
pub mod strutil;
