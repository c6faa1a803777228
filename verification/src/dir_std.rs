//! Directory standards: weighted sets of path-matching rules describing
//! expected project layouts, and the evaluation of path listings against
//! them.

pub mod format;
pub mod identifier;
