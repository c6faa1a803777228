//! The manifest data model: the legacy v1 manifest contents and the
//! v2 (LOSH) manifest contents, as plain values. URLs and repo-relative
//! paths are carried in their textual form; reading and writing manifest
//! files, and parsing URLs, happen outside this library, which only maps
//! and checks the values.

pub mod builder;
pub mod generated;
pub mod v1;
pub mod v2;
