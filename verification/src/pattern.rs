//! Compiled regular expressions, held behind a minimal trusted surface.
//!
//! What a regular expression accepts cannot be restated here, so the result
//! of matching is given a name: `regex_accepts(pattern, text)` stands for
//! what the `regex` crate's matcher returns for a regex compiled from
//! `pattern` when searching `text`. Every contract that involves matching
//! speaks of that name.

use vstd::prelude::*;

verus! {

/// Whether the `regex` crate accepts `pattern` as a valid regular
/// expression (`regex::Regex::new` returns `Ok`). Compilation is a
/// function of the pattern text alone.
pub uninterp spec fn regex_valid(pattern: Seq<char>) -> bool;

/// What `regex::Regex::is_match` returns when a regex compiled from
/// `pattern` searches `text`: whether a match exists anywhere in `text`.
/// Matching is a function of the pattern and the text alone.
pub uninterp spec fn regex_accepts(pattern: Seq<char>, text: Seq<char>) -> bool;

#[verifier::external_type_specification]
#[verifier::external_body]
pub struct ExRegex(regex::Regex);

/// A regular expression compiled once and queried many times.
///
/// The `compiled` field is only ever built from the `pattern` field (see
/// [`PathMatcher::new`]), which is what lets [`PathMatcher::is_match`]
/// speak of `regex_accepts(self.pattern_spec(), ..)`.
#[derive(Debug)]
pub struct PathMatcher {
    pattern: String,
    compiled: regex::Regex,
}

impl PathMatcher {
    /// The pattern text this matcher was compiled from.
    pub closed spec fn pattern_spec(&self) -> Seq<char> {
        self.pattern@
    }

    /// Relies on `regex::Regex::new`: it compiles `pattern`, returning an
    /// error exactly on patterns the crate rejects (invalid syntax, or a
    /// regex over the default size limit).
    #[verifier::external_body]
    pub fn new(pattern: &str) -> (r: Option<PathMatcher>)
        ensures
            r is Some <==> regex_valid(pattern@),
            r matches Some(m) ==> m.pattern_spec() == pattern@,
    {
        match regex::Regex::new(pattern) {
            Ok(compiled) => Some(PathMatcher { pattern: pattern.to_owned(), compiled }),
            Err(_) => None,
        }
    }

    /// Relies on `regex::Regex::is_match`: true if and only if the compiled
    /// regex matches somewhere in `text`; deterministic in the pattern and
    /// the text.
    #[verifier::external_body]
    pub fn is_match(&self, text: &str) -> (r: bool)
        ensures
            r == regex_accepts(self.pattern_spec(), text@),
    {
        self.compiled.is_match(text)
    }

    /// The pattern text, as handed to [`PathMatcher::new`].
    pub fn pattern(&self) -> (r: &str)
        ensures
            r@ == self.pattern_spec(),
    {
        self.pattern.as_str()
    }
}

/// Whether the `regress` crate accepts `pattern` as a valid regular
/// expression (`regress::Regex::new` returns `Ok`). Compilation is a
/// function of the pattern text alone.
pub uninterp spec fn regress_valid(pattern: Seq<char>) -> bool;

/// Whether a `regress` regex compiled from `pattern` finds a match
/// anywhere in `text` (`regress::Regex::find` returns one). A function of
/// the pattern and the text alone.
pub uninterp spec fn regress_found(pattern: Seq<char>, text: Seq<char>) -> bool;

#[verifier::external_type_specification]
#[verifier::external_body]
pub struct ExRegressRegex(regress::Regex);

/// An ECMAScript-flavoured regular expression, compiled once with the
/// `regress` engine; the flavour the manifest schema's patterns are
/// written in.
///
/// The `compiled` field is only ever built from the `pattern` field (see
/// [`TextPattern::new`]), which is what lets [`TextPattern::is_found`]
/// speak of `regress_found(self.pattern_spec(), ..)`.
pub struct TextPattern {
    pattern: String,
    compiled: regress::Regex,
}

impl TextPattern {
    /// The pattern text this matcher was compiled from.
    pub closed spec fn pattern_spec(&self) -> Seq<char> {
        self.pattern@
    }

    /// Relies on `regress::Regex::new`: it parses `pattern` with the
    /// default flags, returning an error exactly on patterns the crate
    /// rejects.
    #[verifier::external_body]
    pub fn new(pattern: &str) -> (r: Option<TextPattern>)
        ensures
            r is Some <==> regress_valid(pattern@),
            r matches Some(m) ==> m.pattern_spec() == pattern@,
    {
        match regress::Regex::new(pattern) {
            Ok(compiled) => Some(TextPattern { pattern: pattern.to_owned(), compiled }),
            Err(_) => None,
        }
    }

    /// Relies on `regress::Regex::find`: it returns the first match, so
    /// there is one exactly when the regex matches somewhere in `text`;
    /// deterministic in the pattern and the text.
    #[verifier::external_body]
    pub fn is_found(&self, text: &str) -> (r: bool)
        ensures
            r == regress_found(self.pattern_spec(), text@),
    {
        self.compiled.find(text).is_some()
    }

    /// The pattern text, as handed to [`TextPattern::new`].
    pub fn pattern(&self) -> (r: &str)
        ensures
            r@ == self.pattern_spec(),
    {
        self.pattern.as_str()
    }
}

} // verus!
