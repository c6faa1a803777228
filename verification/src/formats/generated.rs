//! The schema-shaped building blocks of the OKH manifest model:
//! validated identifier types, one-or-many wrappers, and composite
//! objects.
//!
//! The identifier types are constrained by the manifest schema's
//! ECMAScript-flavoured patterns; their constructors check candidates
//! with the `regress` engine, so each contract is stated over the named
//! match relation `regress_found` at the type's own pattern.

use vstd::prelude::*;
use vstd::string::StringExecFns;

use crate::pattern::TextPattern;
use crate::pattern::regress_found;
use crate::pattern::regress_valid;
use crate::strutil::str_eq;

verus! {

/// Error from a failed conversion into a schema type.
#[derive(Debug)]
pub struct ConversionError {
    msg: String,
}

impl ConversionError {
    /// The error's message text.
    pub closed spec fn spec_msg(&self) -> Seq<char> {
        self.msg@
    }

    /// An error carrying `msg`.
    pub fn new(msg: &str) -> (r: ConversionError)
        ensures
            r.spec_msg() == msg@,
    {
        ConversionError { msg: String::from_str(msg) }
    }

    /// The error's message text.
    pub fn message(&self) -> (r: &String)
        ensures
            r@ == self.spec_msg(),
    {
        &self.msg
    }
}

/// Checks `value` against a schema pattern: the value itself on a match,
/// an error carrying `err_msg` otherwise (or when the pattern itself is
/// rejected by the engine).
fn check_pattern(pattern: &str, value: &str, err_msg: &str) -> (r: Result<String, ConversionError>)
    ensures
        regress_valid(pattern@) ==> (r is Ok <==> regress_found(pattern@, value@)),
        !regress_valid(pattern@) ==> r is Err,
        r matches Ok(s) ==> s@ == value@,
        r matches Err(e) ==> e.spec_msg() == err_msg@,
{
    match TextPattern::new(pattern) {
        Option::Some(p) => {
            if p.is_found(value) {
                Result::Ok(String::from_str(value))
            } else {
                Result::Err(ConversionError::new(err_msg))
            }
        },
        Option::None => Result::Err(ConversionError::new(err_msg)),
    }
}

/// A Cooperative Patent Classification identifier.
pub struct CpcIdVariant0 {
    text: String,
}

impl CpcIdVariant0 {
    /// The identifier text.
    pub closed spec fn spec_text(&self) -> Seq<char> {
        self.text@
    }

    /// The schema pattern a CPC identifier must match.
    pub open spec fn spec_pattern() -> Seq<char> {
        "^[A-HY][0-9]{2}[A-HJ-NP-Z]( ?[12]?[0-9]{1,3}[/][0-9]{2,6})?$"@
    }

    /// Reads a CPC identifier, accepting exactly the texts its schema
    /// pattern matches.
    pub fn from_str(value: &str) -> (r: Result<CpcIdVariant0, ConversionError>)
        ensures
            regress_valid(Self::spec_pattern()) ==> (r is Ok <==> regress_found(
                Self::spec_pattern(),
                value@,
            )),
            r matches Ok(v) ==> v.spec_text() == value@,
    {
        match check_pattern(
            "^[A-HY][0-9]{2}[A-HJ-NP-Z]( ?[12]?[0-9]{1,3}[/][0-9]{2,6})?$",
            value,
            "doesn't match the CPC identifier pattern",
        ) {
            Result::Ok(text) => Result::Ok(CpcIdVariant0 { text }),
            Result::Err(e) => Result::Err(e),
        }
    }

    /// The identifier text.
    pub fn text(&self) -> (r: &String)
        ensures
            r@ == self.spec_text(),
    {
        &self.text
    }
}

/// One Cooperative Patent Classification identifier in a list of them.
pub struct CpcIdVariant1Item {
    text: String,
}

impl CpcIdVariant1Item {
    /// The identifier text.
    pub closed spec fn spec_text(&self) -> Seq<char> {
        self.text@
    }

    /// The schema pattern a CPC identifier must match.
    pub open spec fn spec_pattern() -> Seq<char> {
        "^[A-HY][0-9]{2}[A-HJ-NP-Z]( ?[12]?[0-9]{1,3}[/][0-9]{2,6})?$"@
    }

    /// Reads a CPC identifier, accepting exactly the texts its schema
    /// pattern matches.
    pub fn from_str(value: &str) -> (r: Result<CpcIdVariant1Item, ConversionError>)
        ensures
            regress_valid(Self::spec_pattern()) ==> (r is Ok <==> regress_found(
                Self::spec_pattern(),
                value@,
            )),
            r matches Ok(v) ==> v.spec_text() == value@,
    {
        match check_pattern(
            "^[A-HY][0-9]{2}[A-HJ-NP-Z]( ?[12]?[0-9]{1,3}[/][0-9]{2,6})?$",
            value,
            "doesn't match the CPC identifier pattern",
        ) {
            Result::Ok(text) => Result::Ok(CpcIdVariant1Item { text }),
            Result::Err(e) => Result::Err(e),
        }
    }

    /// The identifier text.
    pub fn text(&self) -> (r: &String)
        ensures
            r@ == self.spec_text(),
    {
        &self.text
    }
}

/// A patent classification: one CPC identifier, or a list of them.
pub enum CpcId {
    Variant0(CpcIdVariant0),
    Variant1(Vec<CpcIdVariant1Item>),
}

impl From<CpcIdVariant0> for CpcId {
    /// A single identifier as a classification.
    fn from(value: CpcIdVariant0) -> (r: Self) {
        CpcId::Variant0(value)
    }
}

impl vstd::std_specs::convert::FromSpecImpl<CpcIdVariant0> for CpcId {
    open spec fn obeys_from_spec() -> bool {
        true
    }

    open spec fn from_spec(value: CpcIdVariant0) -> Self {
        CpcId::Variant0(value)
    }
}

impl From<Vec<CpcIdVariant1Item>> for CpcId {
    /// A list of identifiers as a classification.
    fn from(value: Vec<CpcIdVariant1Item>) -> (r: Self) {
        CpcId::Variant1(value)
    }
}

impl vstd::std_specs::convert::FromSpecImpl<Vec<CpcIdVariant1Item>> for CpcId {
    open spec fn obeys_from_spec() -> bool {
        true
    }

    open spec fn from_spec(value: Vec<CpcIdVariant1Item>) -> Self {
        CpcId::Variant1(value)
    }
}

/// A calendar date: year, month and day, as a manifest states them.
pub struct Date {
    pub year: i64,
    pub month: u8,
    pub day: u8,
}

/// Whether `y` is a leap year of the proleptic Gregorian calendar.
pub open spec fn spec_is_leap_year(y: int) -> bool {
    (y % 4 == 0 && y % 100 != 0) || y % 400 == 0
}

/// How many days the month `m` of year `y` has.
pub open spec fn spec_days_in_month(y: int, m: int) -> int {
    if m == 2 {
        if spec_is_leap_year(y) {
            29
        } else {
            28
        }
    } else if m == 4 || m == 6 || m == 9 || m == 11 {
        30
    } else {
        31
    }
}

impl Date {
    /// Whether the fields name a day of the proleptic Gregorian
    /// calendar.
    pub open spec fn wf(&self) -> bool {
        &&& 1 <= self.month <= 12
        &&& 1 <= self.day
        &&& self.day as int <= spec_days_in_month(self.year as int, self.month as int)
    }

    /// A date from its parts: a value exactly when they name a calendar
    /// day (month in range, day within the month's length, February
    /// bearing its leap day only in leap years).
    pub fn new(year: i64, month: u8, day: u8) -> (r: Option<Date>)
        ensures
            r is Some <==> (1 <= month <= 12 && 1 <= day && day as int <= spec_days_in_month(
                year as int,
                month as int,
            )),
            r matches Some(d) ==> d.year == year && d.month == month && d.day == day && d.wf(),
    {
        if month < 1 || month > 12 || day < 1 {
            return Option::None;
        }
        let leap = (year % 4 == 0 && year % 100 != 0) || year % 400 == 0;
        let limit: u8 = if month == 2 {
            if leap {
                29
            } else {
                28
            }
        } else if month == 4 || month == 6 || month == 9 || month == 11 {
            30
        } else {
            31
        };
        if day > limit {
            return Option::None;
        }
        Option::Some(Date { year, month, day })
    }
}

/// A Digital Object Identifier reference.
pub struct Doi {
    text: String,
}

impl Doi {
    /// The identifier text.
    pub closed spec fn spec_text(&self) -> Seq<char> {
        self.text@
    }

    /// The schema pattern a DOI must match.
    pub open spec fn spec_pattern() -> Seq<char> {
        "^(doi: |DOI: |https://doi.org/)?10\\.\\d{4,9}\\/[-._;()/:a-zA-Z0-9]+$"@
    }

    /// Reads a DOI, accepting exactly the texts its schema pattern
    /// matches.
    pub fn from_str(value: &str) -> (r: Result<Doi, ConversionError>)
        ensures
            regress_valid(Self::spec_pattern()) ==> (r is Ok <==> regress_found(
                Self::spec_pattern(),
                value@,
            )),
            r matches Ok(v) ==> v.spec_text() == value@,
    {
        match check_pattern(
            "^(doi: |DOI: |https://doi.org/)?10\\.\\d{4,9}\\/[-._;()/:a-zA-Z0-9]+$",
            value,
            "doesn't match the DOI pattern",
        ) {
            Result::Ok(text) => Result::Ok(Doi { text }),
            Result::Err(e) => Result::Err(e),
        }
    }

    /// The identifier text.
    pub fn text(&self) -> (r: &String)
        ensures
            r@ == self.spec_text(),
    {
        &self.text
    }
}

/// An email address.
pub struct Email(pub String);

impl From<String> for Email {
    /// Any text serves as an email address; the schema does not
    /// constrain it.
    fn from(value: String) -> (r: Self) {
        Email(value)
    }
}

impl vstd::std_specs::convert::FromSpecImpl<String> for Email {
    open spec fn obeys_from_spec() -> bool {
        true
    }

    open spec fn from_spec(value: String) -> Self {
        Email(value)
    }
}

/// A web URL, in textual form.
pub struct WebUrl(pub String);

impl From<String> for WebUrl {
    /// The URL's textual form.
    fn from(value: String) -> (r: Self) {
        WebUrl(value)
    }
}

impl vstd::std_specs::convert::FromSpecImpl<String> for WebUrl {
    open spec fn obeys_from_spec() -> bool {
        true
    }

    open spec fn from_spec(value: String) -> Self {
        WebUrl(value)
    }
}

/// A repo-relative path, in textual form.
pub struct RelPath(pub String);

impl From<String> for RelPath {
    /// The path's textual form.
    fn from(value: String) -> (r: Self) {
        RelPath(value)
    }
}

impl vstd::std_specs::convert::FromSpecImpl<String> for RelPath {
    open spec fn obeys_from_spec() -> bool {
        true
    }

    open spec fn from_spec(value: String) -> Self {
        RelPath(value)
    }
}

/// A name (of the whole module or of a part).
pub struct Name(pub String);

impl From<String> for Name {
    /// The name text.
    fn from(value: String) -> (r: Self) {
        Name(value)
    }
}

impl vstd::std_specs::convert::FromSpecImpl<String> for Name {
    open spec fn obeys_from_spec() -> bool {
        true
    }

    open spec fn from_spec(value: String) -> Self {
        Name(value)
    }
}

/// An SPDX license expression, in textual form.
pub struct SpdxLicenseExpression(pub String);

impl From<String> for SpdxLicenseExpression {
    /// The expression text.
    fn from(value: String) -> (r: Self) {
        SpdxLicenseExpression(value)
    }
}

impl vstd::std_specs::convert::FromSpecImpl<String> for SpdxLicenseExpression {
    open spec fn obeys_from_spec() -> bool {
        true
    }

    open spec fn from_spec(value: String) -> Self {
        SpdxLicenseExpression(value)
    }
}

/// A BCP 47 language tag.
pub struct Language {
    text: String,
}

impl Language {
    /// The tag text.
    pub closed spec fn spec_text(&self) -> Seq<char> {
        self.text@
    }

    /// The schema pattern a language tag must match.
    pub open spec fn spec_pattern() -> Seq<char> {
        "^(((en-GB-oed|i-ami|i-bnn|i-default|i-enochian|i-hak|i-klingon|i-lux|i-mingo|i-navajo|i-pwn|i-tao|i-tay|i-tsu|sgn-BE-FR|sgn-BE-NL|sgn-CH-DE)|(art-lojban|cel-gaulish|no-bok|no-nyn|zh-guoyu|zh-hakka|zh-min|zh-min-nan|zh-xiang))|((([A-Za-z]{2,3}(-([A-Za-z]{3}(-[A-Za-z]{3}){0,2}))?)|[A-Za-z]{4}|[A-Za-z]{5,8})(-([A-Za-z]{4}))?(-([A-Za-z]{2}|[0-9]{3}))?(-([A-Za-z0-9]{5,8}|[0-9][A-Za-z0-9]{3}))*(-([0-9A-WY-Za-wy-z](-[A-Za-z0-9]{2,8})+))*(-(x(-[A-Za-z0-9]{1,8})+))?)|(x(-[A-Za-z0-9]{1,8})+))$"@
    }

    /// Reads a language tag, accepting exactly the texts its schema
    /// pattern matches.
    pub fn from_str(value: &str) -> (r: Result<Language, ConversionError>)
        ensures
            regress_valid(Self::spec_pattern()) ==> (r is Ok <==> regress_found(
                Self::spec_pattern(),
                value@,
            )),
            r matches Ok(v) ==> v.spec_text() == value@,
    {
        match check_pattern(
            "^(((en-GB-oed|i-ami|i-bnn|i-default|i-enochian|i-hak|i-klingon|i-lux|i-mingo|i-navajo|i-pwn|i-tao|i-tay|i-tsu|sgn-BE-FR|sgn-BE-NL|sgn-CH-DE)|(art-lojban|cel-gaulish|no-bok|no-nyn|zh-guoyu|zh-hakka|zh-min|zh-min-nan|zh-xiang))|((([A-Za-z]{2,3}(-([A-Za-z]{3}(-[A-Za-z]{3}){0,2}))?)|[A-Za-z]{4}|[A-Za-z]{5,8})(-([A-Za-z]{4}))?(-([A-Za-z]{2}|[0-9]{3}))?(-([A-Za-z0-9]{5,8}|[0-9][A-Za-z0-9]{3}))*(-([0-9A-WY-Za-wy-z](-[A-Za-z0-9]{2,8})+))*(-(x(-[A-Za-z0-9]{1,8})+))?)|(x(-[A-Za-z0-9]{1,8})+))$",
            value,
            "doesn't match the BCP 47 language-tag pattern",
        ) {
            Result::Ok(text) => Result::Ok(Language { text }),
            Result::Err(e) => Result::Err(e),
        }
    }

    /// The tag text.
    pub fn text(&self) -> (r: &String)
        ensures
            r@ == self.spec_text(),
    {
        &self.text
    }
}

/// One or more language tags.
pub enum LanguageMulti {
    Variant0(Vec<Language>),
    Variant1(Language),
}

impl From<Vec<Language>> for LanguageMulti {
    /// A list of tags.
    fn from(value: Vec<Language>) -> (r: Self) {
        LanguageMulti::Variant0(value)
    }
}

impl vstd::std_specs::convert::FromSpecImpl<Vec<Language>> for LanguageMulti {
    open spec fn obeys_from_spec() -> bool {
        true
    }

    open spec fn from_spec(value: Vec<Language>) -> Self {
        LanguageMulti::Variant0(value)
    }
}

impl From<Language> for LanguageMulti {
    /// A single tag.
    fn from(value: Language) -> (r: Self) {
        LanguageMulti::Variant1(value)
    }
}

impl vstd::std_specs::convert::FromSpecImpl<Language> for LanguageMulti {
    open spec fn obeys_from_spec() -> bool {
        true
    }

    open spec fn from_spec(value: Language) -> Self {
        LanguageMulti::Variant1(value)
    }
}

/// One text, or a list of texts.
pub enum StringMulti {
    Variant0(String),
    Variant1(Vec<String>),
}

impl From<Vec<String>> for StringMulti {
    /// A list of texts.
    fn from(value: Vec<String>) -> (r: Self) {
        StringMulti::Variant1(value)
    }
}

impl vstd::std_specs::convert::FromSpecImpl<Vec<String>> for StringMulti {
    open spec fn obeys_from_spec() -> bool {
        true
    }

    open spec fn from_spec(value: Vec<String>) -> Self {
        StringMulti::Variant1(value)
    }
}

/// Several texts as one value: nothing for none, the bare text for one,
/// the list for more.
pub fn to_string_multi(strs: Vec<String>) -> (r: Option<StringMulti>)
    ensures
        strs@.len() == 0 ==> r is None,
        strs@.len() == 1 ==> (r matches Some(m) && m matches StringMulti::Variant0(s) && s
            == strs@[0]),
        strs@.len() > 1 ==> (r matches Some(m) && m matches StringMulti::Variant1(v) && v@
            == strs@),
{
    if strs.len() == 0 {
        Option::None
    } else if strs.len() == 1 {
        let s = strs[0].clone();
        Option::Some(StringMulti::Variant0(s))
    } else {
        Option::Some(StringMulti::Variant1(strs))
    }
}

/// An identifier of applying Technology-specific Documentation Criteria.
pub struct Tsdc(pub StringMulti);

impl From<StringMulti> for Tsdc {
    /// The criteria identifiers.
    fn from(value: StringMulti) -> (r: Self) {
        Tsdc(value)
    }
}

impl vstd::std_specs::convert::FromSpecImpl<StringMulti> for Tsdc {
    open spec fn obeys_from_spec() -> bool {
        true
    }

    open spec fn from_spec(value: StringMulti) -> Self {
        Tsdc(value)
    }
}

/// A repo-relative path or a web URL.
pub struct RelPathOrWebUrl {
    pub subtype_0: Option<WebUrl>,
    pub subtype_1: Option<RelPath>,
}

impl Default for RelPathOrWebUrl {
    /// Neither alternative chosen yet.
    fn default() -> (r: Self)
        ensures
            r.subtype_0 is None,
            r.subtype_1 is None,
    {
        RelPathOrWebUrl { subtype_0: Option::None, subtype_1: Option::None }
    }
}

/// One location, or a list of locations.
pub enum RelPathOrWebUrlMulti {
    Variant0(RelPathOrWebUrl),
    Variant1(Vec<RelPathOrWebUrl>),
}

impl From<RelPathOrWebUrl> for RelPathOrWebUrlMulti {
    /// A single location.
    fn from(value: RelPathOrWebUrl) -> (r: Self) {
        RelPathOrWebUrlMulti::Variant0(value)
    }
}

impl vstd::std_specs::convert::FromSpecImpl<RelPathOrWebUrl> for RelPathOrWebUrlMulti {
    open spec fn obeys_from_spec() -> bool {
        true
    }

    open spec fn from_spec(value: RelPathOrWebUrl) -> Self {
        RelPathOrWebUrlMulti::Variant0(value)
    }
}

impl From<Vec<RelPathOrWebUrl>> for RelPathOrWebUrlMulti {
    /// A list of locations.
    fn from(value: Vec<RelPathOrWebUrl>) -> (r: Self) {
        RelPathOrWebUrlMulti::Variant1(value)
    }
}

impl vstd::std_specs::convert::FromSpecImpl<Vec<RelPathOrWebUrl>> for RelPathOrWebUrlMulti {
    open spec fn obeys_from_spec() -> bool {
        true
    }

    open spec fn from_spec(value: Vec<RelPathOrWebUrl>) -> Self {
        RelPathOrWebUrlMulti::Variant1(value)
    }
}

/// One or more web URLs.
pub enum WebUrlMulti {
    Variant0(WebUrl),
    Variant1(Vec<WebUrl>),
}

impl From<WebUrl> for WebUrlMulti {
    /// A single URL.
    fn from(value: WebUrl) -> (r: Self) {
        WebUrlMulti::Variant0(value)
    }
}

impl vstd::std_specs::convert::FromSpecImpl<WebUrl> for WebUrlMulti {
    open spec fn obeys_from_spec() -> bool {
        true
    }

    open spec fn from_spec(value: WebUrl) -> Self {
        WebUrlMulti::Variant0(value)
    }
}

impl From<Vec<WebUrl>> for WebUrlMulti {
    /// A list of URLs.
    fn from(value: Vec<WebUrl>) -> (r: Self) {
        WebUrlMulti::Variant1(value)
    }
}

impl vstd::std_specs::convert::FromSpecImpl<Vec<WebUrl>> for WebUrlMulti {
    open spec fn obeys_from_spec() -> bool {
        true
    }

    open spec fn from_spec(value: Vec<WebUrl>) -> Self {
        WebUrlMulti::Variant1(value)
    }
}

/// Auxiliary repository contents: neither sources nor exports.
pub struct Auxiliary(pub RelPathOrWebUrlMulti);

impl From<RelPathOrWebUrlMulti> for Auxiliary {
    /// The auxiliary locations.
    fn from(value: RelPathOrWebUrlMulti) -> (r: Self) {
        Auxiliary(value)
    }
}

impl vstd::std_specs::convert::FromSpecImpl<RelPathOrWebUrlMulti> for Auxiliary {
    open spec fn obeys_from_spec() -> bool {
        true
    }

    open spec fn from_spec(value: RelPathOrWebUrlMulti) -> Self {
        Auxiliary(value)
    }
}

/// The bill of materials' location(s).
pub struct Bom(pub RelPathOrWebUrlMulti);

impl From<RelPathOrWebUrlMulti> for Bom {
    /// The bill-of-materials locations.
    fn from(value: RelPathOrWebUrlMulti) -> (r: Self) {
        Bom(value)
    }
}

impl vstd::std_specs::convert::FromSpecImpl<RelPathOrWebUrlMulti> for Bom {
    open spec fn obeys_from_spec() -> bool {
        true
    }

    open spec fn from_spec(value: RelPathOrWebUrlMulti) -> Self {
        Bom(value)
    }
}

/// Export file location(s).
pub struct Export(pub RelPathOrWebUrlMulti);

impl From<RelPathOrWebUrlMulti> for Export {
    /// The export locations.
    fn from(value: RelPathOrWebUrlMulti) -> (r: Self) {
        Export(value)
    }
}

impl vstd::std_specs::convert::FromSpecImpl<RelPathOrWebUrlMulti> for Export {
    open spec fn obeys_from_spec() -> bool {
        true
    }

    open spec fn from_spec(value: RelPathOrWebUrlMulti) -> Self {
        Export(value)
    }
}

/// Source file location(s).
pub struct Source(pub RelPathOrWebUrlMulti);

impl From<RelPathOrWebUrlMulti> for Source {
    /// The source locations.
    fn from(value: RelPathOrWebUrlMulti) -> (r: Self) {
        Source(value)
    }
}

impl vstd::std_specs::convert::FromSpecImpl<RelPathOrWebUrlMulti> for Source {
    open spec fn obeys_from_spec() -> bool {
        true
    }

    open spec fn from_spec(value: RelPathOrWebUrlMulti) -> Self {
        Source(value)
    }
}

/// A DOI or a web URL.
pub struct DoiOrWebUrl {
    pub subtype_0: Option<Doi>,
    pub subtype_1: Option<WebUrl>,
}

impl Default for DoiOrWebUrl {
    /// Neither alternative chosen yet.
    fn default() -> (r: Self)
        ensures
            r.subtype_0 is None,
            r.subtype_1 is None,
    {
        DoiOrWebUrl { subtype_0: Option::None, subtype_1: Option::None }
    }
}

/// One or more DOI-or-URL references.
pub struct DoiOrWebUrlMulti {
    pub subtype_0: Option<DoiOrWebUrl>,
    pub subtype_1: Option<Vec<DoiOrWebUrl>>,
}

impl Default for DoiOrWebUrlMulti {
    /// Neither alternative chosen yet.
    fn default() -> (r: Self)
        ensures
            r.subtype_0 is None,
            r.subtype_1 is None,
    {
        DoiOrWebUrlMulti { subtype_0: Option::None, subtype_1: Option::None }
    }
}

/// A language-tagged text.
pub struct LangText {
    /// The BCP 47 language tag the content is written in.
    pub language: Language,
    /// The text content.
    pub text: String,
}

/// What an image depicts: a plain text, one tagged text, or several.
pub enum ImageObjectDepicts {
    Variant0(String),
    Variant1(LangText),
    Variant2(Vec<LangText>),
}

impl From<LangText> for ImageObjectDepicts {
    /// One language-tagged description.
    fn from(value: LangText) -> (r: Self) {
        ImageObjectDepicts::Variant1(value)
    }
}

impl vstd::std_specs::convert::FromSpecImpl<LangText> for ImageObjectDepicts {
    open spec fn obeys_from_spec() -> bool {
        true
    }

    open spec fn from_spec(value: LangText) -> Self {
        ImageObjectDepicts::Variant1(value)
    }
}

impl From<Vec<LangText>> for ImageObjectDepicts {
    /// Several language-tagged descriptions.
    fn from(value: Vec<LangText>) -> (r: Self) {
        ImageObjectDepicts::Variant2(value)
    }
}

impl vstd::std_specs::convert::FromSpecImpl<Vec<LangText>> for ImageObjectDepicts {
    open spec fn obeys_from_spec() -> bool {
        true
    }

    open spec fn from_spec(value: Vec<LangText>) -> Self {
        ImageObjectDepicts::Variant2(value)
    }
}

/// A custom image slot, prefixed `c_`.
pub struct ImageObjectSlotsItemVariant0 {
    text: String,
}

impl ImageObjectSlotsItemVariant0 {
    /// The slot text.
    pub closed spec fn spec_text(&self) -> Seq<char> {
        self.text@
    }

    /// The schema pattern a custom slot must match.
    pub open spec fn spec_pattern() -> Seq<char> {
        "^c_[0-9a-z._-]+$"@
    }

    /// Reads a custom slot, accepting exactly the texts its schema
    /// pattern matches.
    pub fn from_str(value: &str) -> (r: Result<ImageObjectSlotsItemVariant0, ConversionError>)
        ensures
            regress_valid(Self::spec_pattern()) ==> (r is Ok <==> regress_found(
                Self::spec_pattern(),
                value@,
            )),
            r matches Ok(v) ==> v.spec_text() == value@,
    {
        match check_pattern("^c_[0-9a-z._-]+$", value, "doesn't match the custom-slot pattern") {
            Result::Ok(text) => Result::Ok(ImageObjectSlotsItemVariant0 { text }),
            Result::Err(e) => Result::Err(e),
        }
    }

    /// The slot text.
    pub fn text(&self) -> (r: &String)
        ensures
            r@ == self.spec_text(),
    {
        &self.text
    }
}

/// The well-known image slots.
pub enum ImageObjectSlotsItemVariant1 {
    IconMain,
    IconMainBw,
    Logo,
    LogoBw,
    Model3d,
    ModelFromBack,
    ModelFromBelow,
    ModelFromFront,
    ModelFromLeft,
    ModelFromRight,
    ModelFromAbove,
    ModelMain,
    OrganizationLogo,
    OrganizationLogoBw,
    PhotoPackaging,
    PhotoThingMain,
    Social,
    Symbol,
}

impl ImageObjectSlotsItemVariant1 {
    /// The slot's textual form.
    pub open spec fn spec_str(self) -> Seq<char> {
        match self {
            ImageObjectSlotsItemVariant1::IconMain => "icon-main"@,
            ImageObjectSlotsItemVariant1::IconMainBw => "icon-main-bw"@,
            ImageObjectSlotsItemVariant1::Logo => "logo"@,
            ImageObjectSlotsItemVariant1::LogoBw => "logo-bw"@,
            ImageObjectSlotsItemVariant1::Model3d => "model-3d"@,
            ImageObjectSlotsItemVariant1::ModelFromBack => "model-from-back"@,
            ImageObjectSlotsItemVariant1::ModelFromBelow => "model-from-below"@,
            ImageObjectSlotsItemVariant1::ModelFromFront => "model-from-front"@,
            ImageObjectSlotsItemVariant1::ModelFromLeft => "model-from-left"@,
            ImageObjectSlotsItemVariant1::ModelFromRight => "model-from-right"@,
            ImageObjectSlotsItemVariant1::ModelFromAbove => "model-from-above"@,
            ImageObjectSlotsItemVariant1::ModelMain => "model-main"@,
            ImageObjectSlotsItemVariant1::OrganizationLogo => "organization-logo"@,
            ImageObjectSlotsItemVariant1::OrganizationLogoBw => "organization-logo-bw"@,
            ImageObjectSlotsItemVariant1::PhotoPackaging => "photo-packaging"@,
            ImageObjectSlotsItemVariant1::PhotoThingMain => "photo-thing-main"@,
            ImageObjectSlotsItemVariant1::Social => "social"@,
            ImageObjectSlotsItemVariant1::Symbol => "symbol"@,
        }
    }

    /// The slot's textual form.
    pub fn to_str(&self) -> (r: &'static str)
        ensures
            r@ == self.spec_str(),
    {
        match self {
            ImageObjectSlotsItemVariant1::IconMain => "icon-main",
            ImageObjectSlotsItemVariant1::IconMainBw => "icon-main-bw",
            ImageObjectSlotsItemVariant1::Logo => "logo",
            ImageObjectSlotsItemVariant1::LogoBw => "logo-bw",
            ImageObjectSlotsItemVariant1::Model3d => "model-3d",
            ImageObjectSlotsItemVariant1::ModelFromBack => "model-from-back",
            ImageObjectSlotsItemVariant1::ModelFromBelow => "model-from-below",
            ImageObjectSlotsItemVariant1::ModelFromFront => "model-from-front",
            ImageObjectSlotsItemVariant1::ModelFromLeft => "model-from-left",
            ImageObjectSlotsItemVariant1::ModelFromRight => "model-from-right",
            ImageObjectSlotsItemVariant1::ModelFromAbove => "model-from-above",
            ImageObjectSlotsItemVariant1::ModelMain => "model-main",
            ImageObjectSlotsItemVariant1::OrganizationLogo => "organization-logo",
            ImageObjectSlotsItemVariant1::OrganizationLogoBw => "organization-logo-bw",
            ImageObjectSlotsItemVariant1::PhotoPackaging => "photo-packaging",
            ImageObjectSlotsItemVariant1::PhotoThingMain => "photo-thing-main",
            ImageObjectSlotsItemVariant1::Social => "social",
            ImageObjectSlotsItemVariant1::Symbol => "symbol",
        }
    }

    /// Reads a well-known slot name: exactly one of the slots' textual
    /// forms.
    pub fn from_str(value: &str) -> (r: Result<ImageObjectSlotsItemVariant1, ConversionError>)
        ensures
            r matches Ok(v) ==> value@ == v.spec_str(),
            r is Ok <==> (value@ == "icon-main"@ || value@ == "icon-main-bw"@ || value@ == "logo"@
                || value@ == "logo-bw"@ || value@ == "model-3d"@ || value@ == "model-from-back"@
                || value@ == "model-from-below"@ || value@ == "model-from-front"@ || value@
                == "model-from-left"@ || value@ == "model-from-right"@ || value@
                == "model-from-above"@ || value@ == "model-main"@ || value@ == "organization-logo"@
                || value@ == "organization-logo-bw"@ || value@ == "photo-packaging"@ || value@
                == "photo-thing-main"@ || value@ == "social"@ || value@ == "symbol"@),
            r matches Err(e) ==> e.spec_msg() == "invalid value"@,
    {
        if str_eq(value, "icon-main") {
            Result::Ok(ImageObjectSlotsItemVariant1::IconMain)
        } else if str_eq(value, "icon-main-bw") {
            Result::Ok(ImageObjectSlotsItemVariant1::IconMainBw)
        } else if str_eq(value, "logo") {
            Result::Ok(ImageObjectSlotsItemVariant1::Logo)
        } else if str_eq(value, "logo-bw") {
            Result::Ok(ImageObjectSlotsItemVariant1::LogoBw)
        } else if str_eq(value, "model-3d") {
            Result::Ok(ImageObjectSlotsItemVariant1::Model3d)
        } else if str_eq(value, "model-from-back") {
            Result::Ok(ImageObjectSlotsItemVariant1::ModelFromBack)
        } else if str_eq(value, "model-from-below") {
            Result::Ok(ImageObjectSlotsItemVariant1::ModelFromBelow)
        } else if str_eq(value, "model-from-front") {
            Result::Ok(ImageObjectSlotsItemVariant1::ModelFromFront)
        } else if str_eq(value, "model-from-left") {
            Result::Ok(ImageObjectSlotsItemVariant1::ModelFromLeft)
        } else if str_eq(value, "model-from-right") {
            Result::Ok(ImageObjectSlotsItemVariant1::ModelFromRight)
        } else if str_eq(value, "model-from-above") {
            Result::Ok(ImageObjectSlotsItemVariant1::ModelFromAbove)
        } else if str_eq(value, "model-main") {
            Result::Ok(ImageObjectSlotsItemVariant1::ModelMain)
        } else if str_eq(value, "organization-logo") {
            Result::Ok(ImageObjectSlotsItemVariant1::OrganizationLogo)
        } else if str_eq(value, "organization-logo-bw") {
            Result::Ok(ImageObjectSlotsItemVariant1::OrganizationLogoBw)
        } else if str_eq(value, "photo-packaging") {
            Result::Ok(ImageObjectSlotsItemVariant1::PhotoPackaging)
        } else if str_eq(value, "photo-thing-main") {
            Result::Ok(ImageObjectSlotsItemVariant1::PhotoThingMain)
        } else if str_eq(value, "social") {
            Result::Ok(ImageObjectSlotsItemVariant1::Social)
        } else if str_eq(value, "symbol") {
            Result::Ok(ImageObjectSlotsItemVariant1::Symbol)
        } else {
            Result::Err(ConversionError::new("invalid value"))
        }
    }
}

/// An image slot: a well-known one, or a custom `c_` one.
pub enum ImageObjectSlotsItem {
    Variant0(ImageObjectSlotsItemVariant0),
    Variant1(ImageObjectSlotsItemVariant1),
}

impl ImageObjectSlotsItem {
    /// Reads a slot: a custom `c_` slot when the custom pattern
    /// matches, else a well-known slot name.
    pub fn from_str(value: &str) -> (r: Result<ImageObjectSlotsItem, ConversionError>)
        ensures
            r matches Ok(ImageObjectSlotsItem::Variant0(v)) ==> v.spec_text() == value@,
            r matches Ok(ImageObjectSlotsItem::Variant1(v)) ==> value@ == v.spec_str(),
    {
        match ImageObjectSlotsItemVariant0::from_str(value) {
            Result::Ok(v) => Result::Ok(ImageObjectSlotsItem::Variant0(v)),
            Result::Err(_) => {
                match ImageObjectSlotsItemVariant1::from_str(value) {
                    Result::Ok(v) => Result::Ok(ImageObjectSlotsItem::Variant1(v)),
                    Result::Err(e) => Result::Err(e),
                }
            },
        }
    }
}

/// A custom image tag, prefixed `c_`.
pub struct ImageObjectTagsItemVariant0 {
    text: String,
}

impl ImageObjectTagsItemVariant0 {
    /// The tag text.
    pub closed spec fn spec_text(&self) -> Seq<char> {
        self.text@
    }

    /// The schema pattern a custom tag must match.
    pub open spec fn spec_pattern() -> Seq<char> {
        "^c_[0-9a-z._-]+$"@
    }

    /// Reads a custom tag, accepting exactly the texts its schema
    /// pattern matches.
    pub fn from_str(value: &str) -> (r: Result<ImageObjectTagsItemVariant0, ConversionError>)
        ensures
            regress_valid(Self::spec_pattern()) ==> (r is Ok <==> regress_found(
                Self::spec_pattern(),
                value@,
            )),
            r matches Ok(v) ==> v.spec_text() == value@,
    {
        match check_pattern("^c_[0-9a-z._-]+$", value, "doesn't match the custom-tag pattern") {
            Result::Ok(text) => Result::Ok(ImageObjectTagsItemVariant0 { text }),
            Result::Err(e) => Result::Err(e),
        }
    }

    /// The tag text.
    pub fn text(&self) -> (r: &String)
        ensures
            r@ == self.spec_text(),
    {
        &self.text
    }
}

/// The well-known image tags.
pub enum ImageObjectTagsItemVariant1 {
    Art,
    Assembly,
    Bw,
    Color,
    Diagram,
    Drawing,
    Gray,
    Icon,
    Logo,
    Model,
    Photo,
    Screenshot,
}

impl ImageObjectTagsItemVariant1 {
    /// The tag's textual form.
    pub open spec fn spec_str(self) -> Seq<char> {
        match self {
            ImageObjectTagsItemVariant1::Art => "art"@,
            ImageObjectTagsItemVariant1::Assembly => "assembly"@,
            ImageObjectTagsItemVariant1::Bw => "bw"@,
            ImageObjectTagsItemVariant1::Color => "color"@,
            ImageObjectTagsItemVariant1::Diagram => "diagram"@,
            ImageObjectTagsItemVariant1::Drawing => "drawing"@,
            ImageObjectTagsItemVariant1::Gray => "gray"@,
            ImageObjectTagsItemVariant1::Icon => "icon"@,
            ImageObjectTagsItemVariant1::Logo => "logo"@,
            ImageObjectTagsItemVariant1::Model => "model"@,
            ImageObjectTagsItemVariant1::Photo => "photo"@,
            ImageObjectTagsItemVariant1::Screenshot => "screenshot"@,
        }
    }

    /// The tag's textual form.
    pub fn to_str(&self) -> (r: &'static str)
        ensures
            r@ == self.spec_str(),
    {
        match self {
            ImageObjectTagsItemVariant1::Art => "art",
            ImageObjectTagsItemVariant1::Assembly => "assembly",
            ImageObjectTagsItemVariant1::Bw => "bw",
            ImageObjectTagsItemVariant1::Color => "color",
            ImageObjectTagsItemVariant1::Diagram => "diagram",
            ImageObjectTagsItemVariant1::Drawing => "drawing",
            ImageObjectTagsItemVariant1::Gray => "gray",
            ImageObjectTagsItemVariant1::Icon => "icon",
            ImageObjectTagsItemVariant1::Logo => "logo",
            ImageObjectTagsItemVariant1::Model => "model",
            ImageObjectTagsItemVariant1::Photo => "photo",
            ImageObjectTagsItemVariant1::Screenshot => "screenshot",
        }
    }

    /// Reads a well-known tag name: exactly one of the tags' textual
    /// forms.
    pub fn from_str(value: &str) -> (r: Result<ImageObjectTagsItemVariant1, ConversionError>)
        ensures
            r matches Ok(v) ==> value@ == v.spec_str(),
            r is Ok <==> (value@ == "art"@ || value@ == "assembly"@ || value@ == "bw"@ || value@
                == "color"@ || value@ == "diagram"@ || value@ == "drawing"@ || value@ == "gray"@
                || value@ == "icon"@ || value@ == "logo"@ || value@ == "model"@ || value@
                == "photo"@ || value@ == "screenshot"@),
            r matches Err(e) ==> e.spec_msg() == "invalid value"@,
    {
        if str_eq(value, "art") {
            Result::Ok(ImageObjectTagsItemVariant1::Art)
        } else if str_eq(value, "assembly") {
            Result::Ok(ImageObjectTagsItemVariant1::Assembly)
        } else if str_eq(value, "bw") {
            Result::Ok(ImageObjectTagsItemVariant1::Bw)
        } else if str_eq(value, "color") {
            Result::Ok(ImageObjectTagsItemVariant1::Color)
        } else if str_eq(value, "diagram") {
            Result::Ok(ImageObjectTagsItemVariant1::Diagram)
        } else if str_eq(value, "drawing") {
            Result::Ok(ImageObjectTagsItemVariant1::Drawing)
        } else if str_eq(value, "gray") {
            Result::Ok(ImageObjectTagsItemVariant1::Gray)
        } else if str_eq(value, "icon") {
            Result::Ok(ImageObjectTagsItemVariant1::Icon)
        } else if str_eq(value, "logo") {
            Result::Ok(ImageObjectTagsItemVariant1::Logo)
        } else if str_eq(value, "model") {
            Result::Ok(ImageObjectTagsItemVariant1::Model)
        } else if str_eq(value, "photo") {
            Result::Ok(ImageObjectTagsItemVariant1::Photo)
        } else if str_eq(value, "screenshot") {
            Result::Ok(ImageObjectTagsItemVariant1::Screenshot)
        } else {
            Result::Err(ConversionError::new("invalid value"))
        }
    }
}

/// An image tag: a well-known one, or a custom `c_` one.
pub enum ImageObjectTagsItem {
    Variant0(ImageObjectTagsItemVariant0),
    Variant1(ImageObjectTagsItemVariant1),
}

impl ImageObjectTagsItem {
    /// Reads a tag: a custom `c_` tag when the custom pattern matches,
    /// else a well-known tag name.
    pub fn from_str(value: &str) -> (r: Result<ImageObjectTagsItem, ConversionError>)
        ensures
            r matches Ok(ImageObjectTagsItem::Variant0(v)) ==> v.spec_text() == value@,
            r matches Ok(ImageObjectTagsItem::Variant1(v)) ==> value@ == v.spec_str(),
    {
        match ImageObjectTagsItemVariant0::from_str(value) {
            Result::Ok(v) => Result::Ok(ImageObjectTagsItem::Variant0(v)),
            Result::Err(_) => {
                match ImageObjectTagsItemVariant1::from_str(value) {
                    Result::Ok(v) => Result::Ok(ImageObjectTagsItem::Variant1(v)),
                    Result::Err(e) => Result::Err(e),
                }
            },
        }
    }
}

/// A described image: its location, what it depicts, and its slots and
/// tags.
pub struct ImageObject {
    /// Human-oriented description of what is visible in the image.
    pub depicts: Option<ImageObjectDepicts>,
    /// Project-relative path or absolute URL of the image file.
    pub location: RelPathOrWebUrl,
    pub slots: Vec<ImageObjectSlotsItem>,
    pub tags: Vec<ImageObjectTagsItem>,
}

/// An image: a bare location, or a described image object.
pub enum Image {
    RelPathOrWebUrl(RelPathOrWebUrl),
    ImageObject(ImageObject),
}

impl From<RelPathOrWebUrl> for Image {
    /// A bare location as an image.
    fn from(value: RelPathOrWebUrl) -> (r: Self) {
        Image::RelPathOrWebUrl(value)
    }
}

impl vstd::std_specs::convert::FromSpecImpl<RelPathOrWebUrl> for Image {
    open spec fn obeys_from_spec() -> bool {
        true
    }

    open spec fn from_spec(value: RelPathOrWebUrl) -> Self {
        Image::RelPathOrWebUrl(value)
    }
}

impl From<ImageObject> for Image {
    /// A described image.
    fn from(value: ImageObject) -> (r: Self) {
        Image::ImageObject(value)
    }
}

impl vstd::std_specs::convert::FromSpecImpl<ImageObject> for Image {
    open spec fn obeys_from_spec() -> bool {
        true
    }

    open spec fn from_spec(value: ImageObject) -> Self {
        Image::ImageObject(value)
    }
}

/// One image, or a list of images.
pub struct ImageMulti {
    pub subtype_0: Option<Image>,
    pub subtype_1: Option<Vec<Image>>,
}

impl Default for ImageMulti {
    /// Neither alternative chosen yet.
    fn default() -> (r: Self)
        ensures
            r.subtype_0 is None,
            r.subtype_1 is None,
    {
        ImageMulti { subtype_0: Option::None, subtype_1: Option::None }
    }
}

/// The documentation readiness levels a manifest may declare.
pub enum ManifestDocumentationReadinessLevel {
    Odrlx1,
    Odrlx2,
    Odrlx3,
    Odrlx3x,
    Odrlx4,
}

impl ManifestDocumentationReadinessLevel {
    /// The level's textual form.
    pub open spec fn spec_str(self) -> Seq<char> {
        match self {
            ManifestDocumentationReadinessLevel::Odrlx1 => "ODRL-1"@,
            ManifestDocumentationReadinessLevel::Odrlx2 => "ODRL-2"@,
            ManifestDocumentationReadinessLevel::Odrlx3 => "ODRL-3"@,
            ManifestDocumentationReadinessLevel::Odrlx3x => "ODRL-3*"@,
            ManifestDocumentationReadinessLevel::Odrlx4 => "ODRL-4"@,
        }
    }

    /// The level's textual form.
    pub fn to_str(&self) -> (r: &'static str)
        ensures
            r@ == self.spec_str(),
    {
        match self {
            ManifestDocumentationReadinessLevel::Odrlx1 => "ODRL-1",
            ManifestDocumentationReadinessLevel::Odrlx2 => "ODRL-2",
            ManifestDocumentationReadinessLevel::Odrlx3 => "ODRL-3",
            ManifestDocumentationReadinessLevel::Odrlx3x => "ODRL-3*",
            ManifestDocumentationReadinessLevel::Odrlx4 => "ODRL-4",
        }
    }

    /// Reads a level: exactly one of the levels' textual forms.
    pub fn from_str(value: &str) -> (r: Result<
        ManifestDocumentationReadinessLevel,
        ConversionError,
    >)
        ensures
            r matches Ok(v) ==> value@ == v.spec_str(),
            r is Ok <==> (value@ == "ODRL-1"@ || value@ == "ODRL-2"@ || value@ == "ODRL-3"@
                || value@ == "ODRL-3*"@ || value@ == "ODRL-4"@),
            r matches Err(e) ==> e.spec_msg() == "invalid value"@,
    {
        if str_eq(value, "ODRL-1") {
            Result::Ok(ManifestDocumentationReadinessLevel::Odrlx1)
        } else if str_eq(value, "ODRL-2") {
            Result::Ok(ManifestDocumentationReadinessLevel::Odrlx2)
        } else if str_eq(value, "ODRL-3") {
            Result::Ok(ManifestDocumentationReadinessLevel::Odrlx3)
        } else if str_eq(value, "ODRL-3*") {
            Result::Ok(ManifestDocumentationReadinessLevel::Odrlx3x)
        } else if str_eq(value, "ODRL-4") {
            Result::Ok(ManifestDocumentationReadinessLevel::Odrlx4)
        } else {
            Result::Err(ConversionError::new("invalid value"))
        }
    }
}

/// The schema identifiers a manifest may point at.
pub enum ManifestSchema {
    HttpsJsonSchemastoreOrgOkhJson,
    HttpsW3idOrgOsegSchemaOkhJson,
}

impl ManifestSchema {
    /// The schema URL's textual form.
    pub open spec fn spec_str(self) -> Seq<char> {
        match self {
            ManifestSchema::HttpsJsonSchemastoreOrgOkhJson => "https://json.schemastore.org/okh.json"@,
            ManifestSchema::HttpsW3idOrgOsegSchemaOkhJson => "https://w3id.org/oseg/schema/okh.json"@,
        }
    }

    /// The schema URL's textual form.
    pub fn to_str(&self) -> (r: &'static str)
        ensures
            r@ == self.spec_str(),
    {
        match self {
            ManifestSchema::HttpsJsonSchemastoreOrgOkhJson => "https://json.schemastore.org/okh.json",
            ManifestSchema::HttpsW3idOrgOsegSchemaOkhJson => "https://w3id.org/oseg/schema/okh.json",
        }
    }

    /// Reads a schema identifier: exactly one of the two URLs.
    pub fn from_str(value: &str) -> (r: Result<ManifestSchema, ConversionError>)
        ensures
            r matches Ok(v) ==> value@ == v.spec_str(),
            r is Ok <==> (value@ == "https://json.schemastore.org/okh.json"@ || value@
                == "https://w3id.org/oseg/schema/okh.json"@),
            r matches Err(e) ==> e.spec_msg() == "invalid value"@,
    {
        if str_eq(value, "https://json.schemastore.org/okh.json") {
            Result::Ok(ManifestSchema::HttpsJsonSchemastoreOrgOkhJson)
        } else if str_eq(value, "https://w3id.org/oseg/schema/okh.json") {
            Result::Ok(ManifestSchema::HttpsW3idOrgOsegSchemaOkhJson)
        } else {
            Result::Err(ConversionError::new("invalid value"))
        }
    }
}

/// The technology readiness levels a manifest may declare.
pub enum ManifestTechnologyReadinessLevel {
    Otrl1,
    Otrl2,
    Otrl3,
    Otrl4,
    Otrl5,
    Otrl6,
}

impl ManifestTechnologyReadinessLevel {
    /// The level's textual form.
    pub open spec fn spec_str(self) -> Seq<char> {
        match self {
            ManifestTechnologyReadinessLevel::Otrl1 => "OTRL-1"@,
            ManifestTechnologyReadinessLevel::Otrl2 => "OTRL-2"@,
            ManifestTechnologyReadinessLevel::Otrl3 => "OTRL-3"@,
            ManifestTechnologyReadinessLevel::Otrl4 => "OTRL-4"@,
            ManifestTechnologyReadinessLevel::Otrl5 => "OTRL-5"@,
            ManifestTechnologyReadinessLevel::Otrl6 => "OTRL-6"@,
        }
    }

    /// The level's textual form.
    pub fn to_str(&self) -> (r: &'static str)
        ensures
            r@ == self.spec_str(),
    {
        match self {
            ManifestTechnologyReadinessLevel::Otrl1 => "OTRL-1",
            ManifestTechnologyReadinessLevel::Otrl2 => "OTRL-2",
            ManifestTechnologyReadinessLevel::Otrl3 => "OTRL-3",
            ManifestTechnologyReadinessLevel::Otrl4 => "OTRL-4",
            ManifestTechnologyReadinessLevel::Otrl5 => "OTRL-5",
            ManifestTechnologyReadinessLevel::Otrl6 => "OTRL-6",
        }
    }

    /// Reads a level: exactly one of the levels' textual forms.
    pub fn from_str(value: &str) -> (r: Result<ManifestTechnologyReadinessLevel, ConversionError>)
        ensures
            r matches Ok(v) ==> value@ == v.spec_str(),
            r is Ok <==> (value@ == "OTRL-1"@ || value@ == "OTRL-2"@ || value@ == "OTRL-3"@
                || value@ == "OTRL-4"@ || value@ == "OTRL-5"@ || value@ == "OTRL-6"@),
            r matches Err(e) ==> e.spec_msg() == "invalid value"@,
    {
        if str_eq(value, "OTRL-1") {
            Result::Ok(ManifestTechnologyReadinessLevel::Otrl1)
        } else if str_eq(value, "OTRL-2") {
            Result::Ok(ManifestTechnologyReadinessLevel::Otrl2)
        } else if str_eq(value, "OTRL-3") {
            Result::Ok(ManifestTechnologyReadinessLevel::Otrl3)
        } else if str_eq(value, "OTRL-4") {
            Result::Ok(ManifestTechnologyReadinessLevel::Otrl4)
        } else if str_eq(value, "OTRL-5") {
            Result::Ok(ManifestTechnologyReadinessLevel::Otrl5)
        } else if str_eq(value, "OTRL-6") {
            Result::Ok(ManifestTechnologyReadinessLevel::Otrl6)
        } else {
            Result::Err(ConversionError::new("invalid value"))
        }
    }
}

/// A person: an optional email, name and home page.
pub struct Person {
    /// E-Mail of the person.
    pub email: Option<Email>,
    /// Full name of the person.
    pub name: Option<String>,
    /// Home-page of the person.
    pub url: Option<WebUrl>,
}

impl Default for Person {
    /// A person with nothing known yet.
    fn default() -> (r: Self)
        ensures
            r.email is None,
            r.name is None,
            r.url is None,
    {
        Person { email: Option::None, name: Option::None, url: Option::None }
    }
}

/// An RDF namespace binding: the namespace and an optional prefix.
pub struct RdfNamespace {
    pub namespace: String,
    pub prefix: Option<String>,
}

impl DoiOrWebUrl {
    /// A fresh builder for this type.
    pub fn builder() -> (r: crate::formats::builder::DoiOrWebUrl)
        ensures
            r.subtype_0 matches Ok(v) && v is None,
            r.subtype_1 matches Ok(v) && v is None,
    {
        crate::formats::builder::DoiOrWebUrl::default()
    }
}

impl DoiOrWebUrlMulti {
    /// A fresh builder for this type.
    pub fn builder() -> (r: crate::formats::builder::DoiOrWebUrlMulti)
        ensures
            r.subtype_0 matches Ok(v) && v is None,
            r.subtype_1 matches Ok(v) && v is None,
    {
        crate::formats::builder::DoiOrWebUrlMulti::default()
    }
}

impl ImageMulti {
    /// A fresh builder for this type.
    pub fn builder() -> (r: crate::formats::builder::ImageMulti)
        ensures
            r.subtype_0 matches Ok(v) && v is None,
            r.subtype_1 matches Ok(v) && v is None,
    {
        crate::formats::builder::ImageMulti::default()
    }
}

impl ImageObject {
    /// A fresh builder for this type; the location must be supplied
    /// before it can finish.
    pub fn builder() -> (r: crate::formats::builder::ImageObject)
        ensures
            r.depicts matches Ok(v) && v is None,
            r.location is Err,
            r.slots matches Ok(v) && v@.len() == 0,
            r.tags matches Ok(v) && v@.len() == 0,
    {
        crate::formats::builder::ImageObject::default()
    }
}

impl LangText {
    /// A fresh builder for this type; language and text must be supplied
    /// before it can finish.
    pub fn builder() -> (r: crate::formats::builder::LangText)
        ensures
            r.language is Err,
            r.text is Err,
    {
        crate::formats::builder::LangText::default()
    }
}

impl Person {
    /// A fresh builder for this type.
    pub fn builder() -> (r: crate::formats::builder::Person)
        ensures
            r.email matches Ok(v) && v is None,
            r.name matches Ok(v) && v is None,
            r.url matches Ok(v) && v is None,
    {
        crate::formats::builder::Person::default()
    }
}

impl RdfNamespace {
    /// A fresh builder for this type; the namespace must be supplied
    /// before it can finish.
    pub fn builder() -> (r: crate::formats::builder::RdfNamespace)
        ensures
            r.namespace is Err,
            r.prefix matches Ok(v) && v is None,
    {
        crate::formats::builder::RdfNamespace::default()
    }
}

impl RelPathOrWebUrl {
    /// A fresh builder for this type.
    pub fn builder() -> (r: crate::formats::builder::RelPathOrWebUrl)
        ensures
            r.subtype_0 matches Ok(v) && v is None,
            r.subtype_1 matches Ok(v) && v is None,
    {
        crate::formats::builder::RelPathOrWebUrl::default()
    }
}

} // verus!
