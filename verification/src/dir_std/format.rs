//! Loading directory standards from raw tabular records.
//!
//! One record per path rule: a path-matching regular expression, three
//! booleans (fixed location, source artifacts, module root), a tri-state
//! (arbitrary content), a non-negative decimal weight (the raw
//! indicativeness), and a free-text description.
//!
//! Weights are normalized at load time. A rule's indicativeness is the
//! fraction `weight / weight_sum` of the loaded standard, kept exactly:
//! every raw decimal is scaled by a common power of ten into an integer
//! `weight`, and `weight_sum` is their sum, so the indicativeness values
//! of a loaded standard always sum to exactly one. A standard whose raw
//! weights sum to zero (an empty record set included) is rejected.

use vstd::arithmetic::mul::lemma_mul_inequality;
use vstd::arithmetic::power::lemma_pow0;
use vstd::arithmetic::power::lemma_pow_adds;
use vstd::arithmetic::power::lemma_pow_positive;
use vstd::arithmetic::power::pow;
use vstd::prelude::*;
use vstd::string::StringExecFns;

use crate::codify::Codify;
use crate::pattern::PathMatcher;
use crate::pattern::regex_valid;
use crate::strutil::bool_code;
use crate::strutil::spec_bool_code;
use crate::strutil::spec_dec;
use crate::strutil::str_eq;
use crate::strutil::u64_to_dec;

verus! {

/// Why loading a directory standard failed.
#[derive(Debug, Clone, Copy, PartialEq, Eq)]
pub enum ParseError {
    /// The raw text could not be split into records.
    Csv,
    /// A boolean, tri-state or weight column that could not be parsed.
    InvalidField,
    /// A path pattern that the regex engine rejects.
    InvalidRegex,
    /// The scaled weights or their sum exceed the representable range.
    WeightOverflow,
    /// The raw weights sum to zero: a standard with no discriminating
    /// power must not be constructed.
    ZeroWeightSum,
}

/// A tri-state column value: yes, no, or unknown (written `-`).
#[derive(Debug, Clone, Copy, PartialEq, Eq, Structural)]
pub enum OptBool {
    False,
    True,
    Unknown,
}

impl OptBool {
    /// This tri-state as an optional boolean.
    pub open spec fn spec_native(self) -> Option<bool> {
        match self {
            OptBool::False => Option::Some(false),
            OptBool::True => Option::Some(true),
            OptBool::Unknown => Option::None,
        }
    }

    /// Converts to the native optional-boolean representation.
    pub fn to_native(&self) -> (r: Option<bool>)
        ensures
            r == self.spec_native(),
    {
        match self {
            OptBool::False => Option::Some(false),
            OptBool::True => Option::Some(true),
            OptBool::Unknown => Option::None,
        }
    }

    /// Rust source text that initializes [`OptBool::to_native`]'s result.
    pub open spec fn spec_init_code(self) -> Seq<char> {
        match self {
            OptBool::False => "Some(false)"@,
            OptBool::True => "Some(true)"@,
            OptBool::Unknown => "None"@,
        }
    }

    /// Rust source text that initializes [`OptBool::to_native`]'s result.
    pub fn init_code(&self) -> (r: &'static str)
        ensures
            r@ == self.spec_init_code(),
    {
        match self {
            OptBool::False => "Some(false)",
            OptBool::True => "Some(true)",
            OptBool::Unknown => "None",
        }
    }
}

/// What a boolean column parses to: `true`, `false`, or nothing.
pub open spec fn spec_parse_bool(s: Seq<char>) -> Option<bool> {
    if s == "true"@ {
        Option::Some(true)
    } else if s == "false"@ {
        Option::Some(false)
    } else {
        Option::None
    }
}

/// Parses a boolean column value.
pub fn parse_bool(s: &str) -> (r: Option<bool>)
    ensures
        r == spec_parse_bool(s@),
{
    if str_eq(s, "true") {
        Option::Some(true)
    } else if str_eq(s, "false") {
        Option::Some(false)
    } else {
        Option::None
    }
}

/// What a tri-state column parses to: `true`, `false`, `-`, or nothing.
pub open spec fn spec_parse_tristate(s: Seq<char>) -> Option<OptBool> {
    if s == "true"@ {
        Option::Some(OptBool::True)
    } else if s == "false"@ {
        Option::Some(OptBool::False)
    } else if s == "-"@ {
        Option::Some(OptBool::Unknown)
    } else {
        Option::None
    }
}

/// Parses a tri-state column value.
pub fn parse_tristate(s: &str) -> (r: Option<OptBool>)
    ensures
        r == spec_parse_tristate(s@),
{
    if str_eq(s, "true") {
        Option::Some(OptBool::True)
    } else if str_eq(s, "false") {
        Option::Some(OptBool::False)
    } else if str_eq(s, "-") {
        Option::Some(OptBool::Unknown)
    } else {
        Option::None
    }
}

/// Whether `c` is a decimal digit.
pub open spec fn is_digit(c: char) -> bool {
    48 <= c as u32 <= 57
}

/// The value of a digit character, zero for any other character.
pub open spec fn digit_val(c: char) -> nat {
    if is_digit(c) {
        (c as u32 - 48) as nat
    } else {
        0
    }
}

/// The number a digit string denotes, read in base ten.
pub open spec fn digits_val(s: Seq<char>) -> nat
    decreases s.len(),
{
    if s.len() == 0 {
        0
    } else {
        digits_val(s.drop_last()) * 10 + digit_val(s.last())
    }
}

/// How many `.` characters `s` holds.
pub open spec fn count_dots(s: Seq<char>) -> nat
    decreases s.len(),
{
    if s.len() == 0 {
        0
    } else {
        count_dots(s.drop_last()) + if s.last() == '.' {
            1nat
        } else {
            0nat
        }
    }
}

/// `s` with every `.` removed.
pub open spec fn strip_dot(s: Seq<char>) -> Seq<char>
    decreases s.len(),
{
    if s.len() == 0 {
        s
    } else if s.last() == '.' {
        strip_dot(s.drop_last())
    } else {
        strip_dot(s.drop_last()).push(s.last())
    }
}

/// The position of the first `.` in `s`, if any.
pub open spec fn first_dot(s: Seq<char>) -> Option<int>
    decreases s.len(),
{
    if s.len() == 0 {
        Option::None
    } else {
        match first_dot(s.drop_last()) {
            Option::Some(i) => Option::Some(i),
            Option::None => if s.last() == '.' {
                Option::Some(s.len() - 1)
            } else {
                Option::None
            },
        }
    }
}

/// Whether `s` is a well-formed non-negative decimal: digits with at most
/// one `.`, and at least one digit.
pub open spec fn valid_weight(s: Seq<char>) -> bool {
    &&& forall|i: int| 0 <= i < s.len() ==> (#[trigger] s[i] == '.' || is_digit(s[i]))
    &&& count_dots(s) <= 1
    &&& strip_dot(s).len() >= 1
}

/// The mantissa of a decimal string: its digits read as one integer.
pub open spec fn weight_mantissa(s: Seq<char>) -> nat {
    digits_val(strip_dot(s))
}

/// How many digits follow the dot; zero when there is no dot.
pub open spec fn weight_frac(s: Seq<char>) -> int {
    match first_dot(s) {
        Option::Some(i) => s.len() - 1 - i,
        Option::None => 0,
    }
}

/// The outcome of reading one decimal weight column.
enum WeightParse {
    /// Mantissa and number of fractional digits.
    Value(u64, usize),
    /// Not a well-formed decimal.
    Malformed,
    /// Well-formed, but the mantissa does not fit the weight type.
    TooBig,
}

/// Reads a decimal weight column: its mantissa (all digits as one
/// integer) and its count of fractional digits. The denoted value is
/// `mantissa / 10^frac`.
fn parse_weight(s: &str) -> (r: WeightParse)
    ensures
        r matches WeightParse::Value(m, f) ==> valid_weight(s@) && m as nat == weight_mantissa(s@)
            && f as int == weight_frac(s@),
        r is Malformed <==> !valid_weight(s@),
        r is TooBig <==> valid_weight(s@) && weight_mantissa(s@) > u64::MAX as nat,
        r is Value <==> valid_weight(s@) && weight_mantissa(s@) <= u64::MAX as nat,
{
    let len = s.unicode_len();
    let mut dots: usize = 0;
    let mut dot_idx: usize = 0;  // meaningful only when dots > 0
    let mut digits: usize = 0;
    let mut acc: u64 = 0;
    let mut too_big = false;
    let mut i: usize = 0;
    while i < len
        invariant
            i <= len,
            len == s@.len(),
            dots <= i,
            digits <= i,
            dots as nat == count_dots(s@.take(i as int)),
            dots > 0 ==> first_dot(s@.take(i as int)) == Option::Some(dot_idx as int) && dot_idx
                < i,
            dots == 0 ==> first_dot(s@.take(i as int)) is None,
            digits as nat == strip_dot(s@.take(i as int)).len(),
            forall|j: int| 0 <= j < i ==> (#[trigger] s@[j] == '.' || is_digit(s@[j])),
            !too_big ==> acc as nat == digits_val(strip_dot(s@.take(i as int))),
            too_big ==> digits_val(strip_dot(s@.take(i as int))) > u64::MAX as nat,
        decreases len - i,
    {
        let c = s.get_char(i);
        proof {
            assert(s@.take(i + 1).drop_last() =~= s@.take(i as int));
            assert(s@.take(i + 1).last() == s@[i as int]);
        }
        if c == '.' {
            if dots == 0 {
                dot_idx = i;
            }
            dots = dots + 1;
        } else if (c as u32) >= 48 && (c as u32) <= 57 {
            proof {
                assert(strip_dot(s@.take(i + 1)) =~= strip_dot(s@.take(i as int)).push(c));
                assert(strip_dot(s@.take(i as int)).push(c).drop_last() =~= strip_dot(
                    s@.take(i as int),
                ));
                assert(digit_val(c) == (c as u32 - 48) as nat);
            }
            let d = (c as u32 - 48) as u64;
            if !too_big {
                match acc.checked_mul(10) {
                    Option::Some(base) => {
                        match base.checked_add(d) {
                            Option::Some(v) => {
                                acc = v;
                            },
                            Option::None => {
                                too_big = true;
                            },
                        }
                    },
                    Option::None => {
                        too_big = true;
                    },
                }
            }
            digits = digits + 1;
        } else {
            proof {
                assert(s@[i as int] != '.' && !is_digit(s@[i as int]));
                assert(!valid_weight(s@));
            }
            return WeightParse::Malformed;
        }
        i = i + 1;
    }
    proof {
        assert(s@.take(len as int) =~= s@);
    }
    if dots > 1 || digits == 0 {
        return WeightParse::Malformed;
    }
    if too_big {
        return WeightParse::TooBig;
    }
    let frac: usize = if dots == 1 {
        len - 1 - dot_idx
    } else {
        0
    };
    WeightParse::Value(acc, frac)
}

/// One raw record of a directory standard's definition table, fields
/// still in their textual form.
pub struct RawRecord {
    /// The path-matching regular expression.
    pub path_pattern: String,
    /// Whether the path is expected at a fixed location (`true`/`false`).
    pub fixed: String,
    /// Whether files here are primary source artifacts (`true`/`false`).
    pub source: String,
    /// Whether a matching directory is a sub-module root (`true`/`false`).
    pub module: String,
    /// Whether contents below are unconstrained (`true`/`false`/`-`).
    pub arbitrary_content: String,
    /// The raw weight, a non-negative decimal.
    pub indicativeness: String,
    /// Free text, not interpreted.
    pub description: String,
}

impl View for RawRecord {
    type V = Seq<Seq<char>>;

    open spec fn view(&self) -> Seq<Seq<char>> {
        seq![
            self.path_pattern@,
            self.fixed@,
            self.source@,
            self.module@,
            self.arbitrary_content@,
            self.indicativeness@,
            self.description@,
        ]
    }
}

/// The views of a sequence of raw records.
pub open spec fn row_views(rows: Seq<RawRecord>) -> Seq<Seq<Seq<char>>> {
    rows.map_values(|r: RawRecord| r@)
}

/// Whether every textual field of a row parses (the pattern column is
/// judged separately).
pub open spec fn row_fields_ok(row: Seq<Seq<char>>) -> bool {
    &&& spec_parse_bool(row[1]) is Some
    &&& spec_parse_bool(row[2]) is Some
    &&& spec_parse_bool(row[3]) is Some
    &&& spec_parse_tristate(row[4]) is Some
    &&& valid_weight(row[5])
}

/// The error one row contributes: unparseable fields first, then a
/// rejected pattern.
pub open spec fn row_error(row: Seq<Seq<char>>) -> Option<ParseError> {
    if !row_fields_ok(row) {
        Option::Some(ParseError::InvalidField)
    } else if !regex_valid(row[0]) {
        Option::Some(ParseError::InvalidRegex)
    } else {
        Option::None
    }
}

/// The first row error in table order, if any.
pub open spec fn first_row_error(rows: Seq<Seq<Seq<char>>>) -> Option<ParseError>
    decreases rows.len(),
{
    if rows.len() == 0 {
        Option::None
    } else {
        match first_row_error(rows.drop_last()) {
            Option::Some(e) => Option::Some(e),
            Option::None => row_error(rows.last()),
        }
    }
}

/// The largest count of fractional digits over all weight columns: the
/// common scale of the table.
pub open spec fn max_frac(rows: Seq<Seq<Seq<char>>>) -> int
    decreases rows.len(),
{
    if rows.len() == 0 {
        0
    } else {
        let rest = max_frac(rows.drop_last());
        if weight_frac(rows.last()[5]) > rest {
            weight_frac(rows.last()[5])
        } else {
            rest
        }
    }
}

/// A row's scaled integer weight: its mantissa brought to the common
/// scale `maxf`.
pub open spec fn scaled_weight(row: Seq<Seq<char>>, maxf: int) -> int {
    weight_mantissa(row[5]) * pow(10, (maxf - weight_frac(row[5])) as nat)
}

/// The sum of all scaled weights at scale `maxf`.
pub open spec fn weight_total(rows: Seq<Seq<Seq<char>>>, maxf: int) -> int
    decreases rows.len(),
{
    if rows.len() == 0 {
        0
    } else {
        weight_total(rows.drop_last(), maxf) + scaled_weight(rows.last(), maxf)
    }
}

/// Whether every scaled weight and their sum fit the weight type.
pub open spec fn weights_fit(rows: Seq<Seq<Seq<char>>>) -> bool {
    &&& forall|i: int|
        0 <= i < rows.len() ==> #[trigger] scaled_weight(rows[i], max_frac(rows))
            <= u64::MAX as int
    &&& weight_total(rows, max_frac(rows)) <= u64::MAX as int
}

/// What loading a table of rows yields: the first error, or nothing for a
/// loadable table. Row errors come first, then the representable-range
/// check, then the degenerate zero-sum check.
pub open spec fn spec_load_error(rows: Seq<Seq<Seq<char>>>) -> Option<ParseError> {
    match first_row_error(rows) {
        Option::Some(e) => Option::Some(e),
        Option::None => if !weights_fit(rows) {
            Option::Some(ParseError::WeightOverflow)
        } else if weight_total(rows, max_frac(rows)) == 0 {
            Option::Some(ParseError::ZeroWeightSum)
        } else {
            Option::None
        },
    }
}

/// One loaded path rule of a directory standard.
#[derive(Debug)]
pub struct Record {
    /// The compiled path pattern; its text is the rule's identity.
    pub matcher: PathMatcher,
    /// Whether the path is expected at a fixed/exact location.
    pub fixed: bool,
    /// Whether files at this location are primary source artifacts.
    pub source: bool,
    /// Whether a directory matching this rule is a sub-module root.
    pub module: bool,
    /// Whether contents below this path are unconstrained.
    pub arbitrary_content: OptBool,
    /// The scaled integer weight; this rule's indicativeness is
    /// `weight / weight_sum` of the owning standard.
    pub weight: u64,
    /// Free text, not interpreted.
    pub description: String,
}

/// The sum of the weights of a sequence of loaded records.
pub open spec fn sum_record_weights(records: Seq<Record>) -> int
    decreases records.len(),
{
    if records.len() == 0 {
        0
    } else {
        sum_record_weights(records.drop_last()) + records.last().weight as int
    }
}

/// Whether a loaded record mirrors a raw row at scale `maxf`.
pub open spec fn record_matches_row(rec: Record, row: Seq<Seq<char>>, maxf: int) -> bool {
    &&& rec.matcher.pattern_spec() == row[0]
    &&& Option::Some(rec.fixed) == spec_parse_bool(row[1])
    &&& Option::Some(rec.source) == spec_parse_bool(row[2])
    &&& Option::Some(rec.module) == spec_parse_bool(row[3])
    &&& Option::Some(rec.arbitrary_content) == spec_parse_tristate(row[4])
    &&& rec.weight as int == scaled_weight(row, maxf)
    &&& rec.description@ == row[6]
}

/// What loading a table named `name` from `rows` must yield: success
/// exactly on loadable tables, the first error otherwise, and on success
/// a well-formed standard whose rules mirror the rows at the table's
/// common scale.
pub open spec fn load_post(
    r: Result<DirStandard, ParseError>,
    name: Seq<char>,
    rows: Seq<Seq<Seq<char>>>,
) -> bool {
    &&& r is Ok <==> spec_load_error(rows) is None
    &&& (r matches Err(e) ==> Option::Some(e) == spec_load_error(rows))
    &&& (r matches Ok(s) ==> {
        &&& s.wf()
        &&& s.spec_name() == name
        &&& s.spec_records().len() == rows.len()
        &&& forall|i: int|
            0 <= i < rows.len() ==> record_matches_row(
                #[trigger] s.spec_records()[i],
                rows[i],
                max_frac(rows),
            )
        &&& s.spec_weight_sum() as int == weight_total(rows, max_frac(rows))
    })
}

/// A named, immutable directory standard: an ordered set of weighted path
/// rules whose weights sum to `weight_sum`, which is positive. Built only
/// by the loaders, so the normalization invariant [`DirStandard::wf`]
/// holds of every value.
#[derive(Debug)]
pub struct DirStandard {
    name: String,
    records: Vec<Record>,
    weight_sum: u64,
}

impl DirStandard {
    /// The standard's name.
    pub closed spec fn spec_name(&self) -> Seq<char> {
        self.name@
    }

    /// The standard's rules, in table order.
    pub closed spec fn spec_records(&self) -> Seq<Record> {
        self.records@
    }

    /// The sum of all rule weights: the common denominator of the rules'
    /// indicativeness fractions.
    pub closed spec fn spec_weight_sum(&self) -> u64 {
        self.weight_sum
    }

    /// The normalization invariant: the weights sum to `weight_sum`,
    /// which is positive. Hence the indicativeness fractions
    /// `weight / weight_sum` sum to exactly one.
    pub open spec fn wf(&self) -> bool {
        &&& self.spec_weight_sum() > 0
        &&& sum_record_weights(self.spec_records()) == self.spec_weight_sum() as int
    }

    /// The standard's name.
    pub fn name(&self) -> (r: &String)
        ensures
            r@ == self.spec_name(),
    {
        &self.name
    }

    /// The standard's rules, in table order.
    pub fn records(&self) -> (r: &Vec<Record>)
        ensures
            r@ == self.spec_records(),
    {
        &self.records
    }

    /// The sum of all rule weights.
    pub fn weight_sum(&self) -> (r: u64)
        ensures
            r == self.spec_weight_sum(),
    {
        self.weight_sum
    }

    /// Loads a standard from raw records: parses every column, compiles
    /// every pattern, brings all weights to a common scale, and checks
    /// that they sum to something positive and representable. Fails with
    /// the first row's error in table order, and never yields a
    /// degenerate standard.
    pub fn from_records(name: &str, rows: &Vec<RawRecord>) -> (r: Result<DirStandard, ParseError>)
        ensures
            load_post(r, name@, row_views(rows@)),
    {
        let ghost views = row_views(rows@);
        let n = rows.len();
        // Validate every row: fields first, then the pattern.
        let mut any_too_big = false;
        let mut i: usize = 0;
        while i < n
            invariant
                i <= n,
                n == rows@.len(),
                views == row_views(rows@),
                forall|j: int| 0 <= j < i ==> row_error(#[trigger] views[j]) is None,
                any_too_big ==> exists|j: int|
                    0 <= j < i && weight_mantissa(#[trigger] views[j][5]) > u64::MAX as nat,
                !any_too_big ==> forall|j: int|
                    0 <= j < i ==> weight_mantissa(#[trigger] views[j][5]) <= u64::MAX as nat,
            decreases n - i,
        {
            let row = &rows[i];
            proof {
                assert(views[i as int] == rows@[i as int]@);
            }
            let fields_ok = parse_bool(row.fixed.as_str()).is_some() && parse_bool(
                row.source.as_str(),
            ).is_some() && parse_bool(row.module.as_str()).is_some() && parse_tristate(
                row.arbitrary_content.as_str(),
            ).is_some();
            let weight = parse_weight(row.indicativeness.as_str());
            if !fields_ok || matches!(weight, WeightParse::Malformed) {
                proof {
                    lemma_first_row_error_prefix(views, i as int);
                }
                return Result::Err(ParseError::InvalidField);
            }
            if PathMatcher::new(row.path_pattern.as_str()).is_none() {
                proof {
                    lemma_first_row_error_prefix(views, i as int);
                }
                return Result::Err(ParseError::InvalidRegex);
            }
            if matches!(weight, WeightParse::TooBig) {
                any_too_big = true;
            }
            i = i + 1;
        }
        proof {
            lemma_first_row_error_none(views);
        }
        if any_too_big {
            proof {
                let j = choose|j: int|
                    0 <= j < n && weight_mantissa(#[trigger] views[j][5]) > u64::MAX as nat;
                lemma_max_frac_bounds(views, j);
                lemma_scaled_at_least_mantissa(views[j], max_frac(views));
                assert(scaled_weight(views[j], max_frac(views)) > u64::MAX as int);
                assert(!weights_fit(views));
            }
            return Result::Err(ParseError::WeightOverflow);
        }
        // The common scale of the table.
        let mut maxf: usize = 0;
        let mut i: usize = 0;
        while i < n
            invariant
                i <= n,
                n == rows@.len(),
                views == row_views(rows@),
                forall|j: int| 0 <= j < n ==> row_error(#[trigger] views[j]) is None,
                forall|j: int|
                    0 <= j < n ==> weight_mantissa(#[trigger] views[j][5]) <= u64::MAX as nat,
                maxf as int == max_frac(views.take(i as int)),
            decreases n - i,
        {
            proof {
                assert(views.take(i + 1).drop_last() =~= views.take(i as int));
                assert(views.take(i + 1).last() == views[i as int]);
                assert(views[i as int] == rows@[i as int]@);
            }
            let row = &rows[i];
            match parse_weight(row.indicativeness.as_str()) {
                WeightParse::Value(_, f) => {
                    if f > maxf {
                        maxf = f;
                    }
                },
                _ => {
                    proof {
                        assert(row_error(views[i as int]) is None);
                        assert(false);
                    }
                },
            }
            i = i + 1;
        }
        proof {
            assert(views.take(n as int) =~= views);
        }
        // Scale, sum, compile and collect.
        let mut records: Vec<Record> = Vec::new();
        let mut total: u64 = 0;
        let mut i: usize = 0;
        while i < n
            invariant
                i <= n,
                n == rows@.len(),
                views == row_views(rows@),
                forall|j: int| 0 <= j < n ==> row_error(#[trigger] views[j]) is None,
                forall|j: int|
                    0 <= j < n ==> weight_mantissa(#[trigger] views[j][5]) <= u64::MAX as nat,
                maxf as int == max_frac(views),
                records@.len() == i,
                forall|j: int|
                    0 <= j < i ==> record_matches_row(#[trigger] records@[j], views[j], maxf as int),
                total as int == weight_total(views.take(i as int), maxf as int),
                sum_record_weights(records@) == total as int,
            decreases n - i,
        {
            proof {
                assert(views.take(i + 1).drop_last() =~= views.take(i as int));
                assert(views.take(i + 1).last() == views[i as int]);
                assert(views[i as int] == rows@[i as int]@);
            }
            let row = &rows[i];
            let fixed = unwrap_bool(parse_bool(row.fixed.as_str()));
            let source = unwrap_bool(parse_bool(row.source.as_str()));
            let module = unwrap_bool(parse_bool(row.module.as_str()));
            let arbitrary_content = match parse_tristate(row.arbitrary_content.as_str()) {
                Option::Some(v) => v,
                Option::None => {
                    proof {
                        assert(false);
                    }
                    OptBool::Unknown
                },
            };
            let (mantissa, frac) = match parse_weight(row.indicativeness.as_str()) {
                WeightParse::Value(m, f) => (m, f),
                _ => {
                    proof {
                        assert(false);
                    }
                    (0, 0)
                },
            };
            proof {
                lemma_max_frac_bounds(views, i as int);
            }
            let weight = match scale_by_pow10(mantissa, maxf - frac) {
                Option::Some(w) => w,
                Option::None => {
                    proof {
                        lemma_first_row_error_none(views);
                        assert(scaled_weight(views[i as int], max_frac(views)) > u64::MAX as int);
                        assert(!weights_fit(views));
                    }
                    return Result::Err(ParseError::WeightOverflow);
                },
            };
            let matcher = match PathMatcher::new(row.path_pattern.as_str()) {
                Option::Some(m) => m,
                Option::None => {
                    proof {
                        assert(row_error(views[i as int]) is None);
                        assert(false);
                    }
                    return Result::Err(ParseError::InvalidRegex);
                },
            };
            let new_total = match total.checked_add(weight) {
                Option::Some(t) => t,
                Option::None => {
                    proof {
                        lemma_first_row_error_none(views);
                        assert(weight_total(views.take(i + 1), maxf as int) > u64::MAX as int);
                        lemma_weight_total_prefix_bound(views, maxf as int, i + 1);
                        assert(!weights_fit(views));
                    }
                    return Result::Err(ParseError::WeightOverflow);
                },
            };
            total = new_total;
            let rec = Record {
                matcher,
                fixed,
                source,
                module,
                arbitrary_content,
                weight,
                description: row.description.clone(),
            };
            let ghost pre_records = records@;
            records.push(rec);
            proof {
                assert(records@.drop_last() =~= pre_records);
            }
            i = i + 1;
        }
        proof {
            assert(views.take(n as int) =~= views);
            assert forall|j: int|
                0 <= j < views.len() implies #[trigger] scaled_weight(views[j], max_frac(views))
                <= u64::MAX as int by {
                assert(record_matches_row(records@[j], views[j], maxf as int));
            }
        }
        if total == 0 {
            return Result::Err(ParseError::ZeroWeightSum);
        }
        Result::Ok(DirStandard { name: String::from_str(name), records, weight_sum: total })
    }

    /// Loads a standard from CSV text: the header line is skipped, and
    /// every data row must carry exactly the seven rule columns, in
    /// order. Rows the csv reader rejects, and rows of the wrong width,
    /// fail with [`ParseError::Csv`]; the rest behaves as
    /// [`DirStandard::from_records`].
    pub fn from_csv_str(name: &str, csv_text: &str) -> (r: Result<DirStandard, ParseError>)
        ensures
            csv_rows_of(csv_text@) is None ==> r == Result::<DirStandard, ParseError>::Err(
                ParseError::Csv,
            ),
            csv_rows_of(csv_text@) matches Some(rows) ==> if csv_arity_ok(rows) {
                load_post(r, name@, rows)
            } else {
                r == Result::<DirStandard, ParseError>::Err(ParseError::Csv)
            },
    {
        let rows = match parse_csv(csv_text) {
            Option::Some(rows) => rows,
            Option::None => {
                return Result::Err(ParseError::Csv);
            },
        };
        let mut raw: Vec<RawRecord> = Vec::new();
        let mut i: usize = 0;
        while i < rows.len()
            invariant
                i <= rows.len(),
                csv_rows_of(csv_text@) == Option::Some(rows.deep_view()),
                raw@.len() == i,
                forall|j: int| 0 <= j < i ==> #[trigger] raw@[j]@ == rows.deep_view()[j],
                forall|j: int| 0 <= j < i ==> (#[trigger] rows.deep_view()[j]).len() == 7,
            decreases rows.len() - i,
        {
            let row = &rows[i];
            proof {
                assert(rows.deep_view()[i as int] == rows@[i as int].deep_view());
            }
            if row.len() != 7 {
                proof {
                    assert(rows.deep_view()[i as int].len() != 7);
                    assert(!csv_arity_ok(rows.deep_view()));
                }
                return Result::Err(ParseError::Csv);
            }
            let rec = RawRecord {
                path_pattern: row[0].clone(),
                fixed: row[1].clone(),
                source: row[2].clone(),
                module: row[3].clone(),
                arbitrary_content: row[4].clone(),
                indicativeness: row[5].clone(),
                description: row[6].clone(),
            };
            proof {
                assert(rec@ =~= rows.deep_view()[i as int]);
            }
            raw.push(rec);
            i = i + 1;
        }
        let r = DirStandard::from_records(name, &raw);
        proof {
            assert(row_views(raw@) =~= rows.deep_view());
        }
        r
    }
}

/// Whether every data row carries exactly the seven rule columns.
pub open spec fn csv_arity_ok(rows: Seq<Seq<Seq<char>>>) -> bool {
    forall|i: int| 0 <= i < rows.len() ==> (#[trigger] rows[i]).len() == 7
}

/// What the csv crate parses `text` into with its default configuration
/// and the header row skipped: the data rows, each a sequence of fields,
/// or nothing when the reader rejects a record. A function of the text
/// alone.
pub uninterp spec fn csv_rows_of(text: Seq<char>) -> Option<Seq<Seq<Seq<char>>>>;

/// Relies on `csv::ReaderBuilder` / `csv::Reader::records`: splits
/// `text` into records with the default configuration (the first row
/// being headers), reading every record eagerly; any record error
/// rejects the whole text.
#[verifier::external_body]
fn parse_csv(text: &str) -> (r: Option<Vec<Vec<String>>>)
    ensures
        r is Some <==> csv_rows_of(text@) is Some,
        r matches Some(rows) ==> csv_rows_of(text@) == Option::Some(rows.deep_view()),
{
    let mut rdr = csv::ReaderBuilder::new().has_headers(true).from_reader(text.as_bytes());
    let mut rows = Vec::new();
    for record in rdr.records() {
        match record {
            Ok(fields) => rows.push(fields.iter().map(str::to_string).collect()),
            Err(_) => return None,
        }
    }
    Some(rows)
}

/// Unwraps an option known to hold a value.
fn unwrap_bool(o: Option<bool>) -> (r: bool)
    requires
        o is Some,
    ensures
        Option::Some(r) == o,
{
    match o {
        Option::Some(b) => b,
        Option::None => false,
    }
}

/// Multiplies `m` by ten, `k` times, refusing results over the weight
/// type's range.
fn scale_by_pow10(m: u64, k: usize) -> (r: Option<u64>)
    ensures
        r matches Some(w) ==> w as int == m as int * pow(10, k as nat),
        r is None ==> m as int * pow(10, k as nat) > u64::MAX as int,
{
    let mut acc = m;
    let mut j: usize = 0;
    proof {
        lemma_pow0(10);
    }
    while j < k
        invariant
            j <= k,
            acc as int == m as int * pow(10, j as nat),
        decreases k - j,
    {
        proof {
            lemma_pow_unfold_ten((j + 1) as nat);
        }
        match acc.checked_mul(10) {
            Option::Some(next) => {
                proof {
                    assert(next as int == m as int * pow(10, (j + 1) as nat)) by (nonlinear_arith)
                        requires
                            next as int == acc as int * 10,
                            acc as int == m as int * pow(10, j as nat),
                            pow(10, (j + 1) as nat) == 10 * pow(10, j as nat),
                    ;
                }
                acc = next;
            },
            Option::None => {
                proof {
                    lemma_pow_adds(10, j as nat, (k - j) as nat);
                    lemma_pow_at_least_ten((k - j) as nat);
                    assert(m as int * pow(10, k as nat) > u64::MAX as int) by (nonlinear_arith)
                        requires
                            acc as int == m as int * pow(10, j as nat),
                            acc as int * 10 > u64::MAX as int,
                            pow(10, k as nat) == pow(10, j as nat) * pow(10, (k - j) as nat),
                            pow(10, (k - j) as nat) >= 10,
                            acc as int >= 0,
                    ;
                }
                return Option::None;
            },
        }
        j = j + 1;
    }
    Option::Some(acc)
}

/// One unfolding of the power function at a positive exponent.
proof fn lemma_pow_unfold_ten(e: nat)
    requires
        e >= 1,
    ensures
        pow(10, e) == 10 * pow(10, (e - 1) as nat),
{
    reveal(pow);
}

/// Ten to a positive power is at least ten.
proof fn lemma_pow_at_least_ten(e: nat)
    requires
        e >= 1,
    ensures
        pow(10, e) >= 10,
{
    lemma_pow_positive(10, (e - 1) as nat);
    lemma_pow_unfold_ten(e);
    assert(pow(10, e) >= 10) by (nonlinear_arith)
        requires
            pow(10, e) == 10 * pow(10, (e - 1) as nat),
            pow(10, (e - 1) as nat) >= 1,
    ;
}

/// A scaled weight is at least its mantissa.
proof fn lemma_scaled_at_least_mantissa(row: Seq<Seq<char>>, maxf: int)
    requires
        maxf >= weight_frac(row[5]),
    ensures
        scaled_weight(row, maxf) >= weight_mantissa(row[5]),
{
    let e = (maxf - weight_frac(row[5])) as nat;
    lemma_pow_positive(10, e);
    lemma_mul_inequality(1, pow(10, e), weight_mantissa(row[5]) as int);
    assert(scaled_weight(row, maxf) >= weight_mantissa(row[5])) by (nonlinear_arith)
        requires
            scaled_weight(row, maxf) == weight_mantissa(row[5]) as int * pow(10, e),
            pow(10, e) >= 1,
    ;
}

/// The common scale bounds every row's fractional length.
proof fn lemma_max_frac_bounds(rows: Seq<Seq<Seq<char>>>, i: int)
    requires
        0 <= i < rows.len(),
    ensures
        max_frac(rows) >= weight_frac(rows[i][5]),
        max_frac(rows) >= 0,
    decreases rows.len(),
{
    lemma_max_frac_nonneg(rows);
    if i < rows.len() - 1 {
        lemma_max_frac_bounds(rows.drop_last(), i);
        assert(rows.drop_last()[i] == rows[i]);
    } else {
        assert(rows.last() == rows[i]);
    }
}

/// The common scale is never negative.
proof fn lemma_max_frac_nonneg(rows: Seq<Seq<Seq<char>>>)
    ensures
        max_frac(rows) >= 0,
    decreases rows.len(),
{
    if rows.len() > 0 {
        lemma_max_frac_nonneg(rows.drop_last());
    }
}

/// Once a prefix of the table holds an error, the whole table holds that
/// same first error.
proof fn lemma_first_row_error_prefix(rows: Seq<Seq<Seq<char>>>, i: int)
    requires
        0 <= i < rows.len(),
        forall|j: int| 0 <= j < i ==> row_error(#[trigger] rows[j]) is None,
        row_error(rows[i]) is Some,
    ensures
        first_row_error(rows) == row_error(rows[i]),
    decreases rows.len(),
{
    if i == rows.len() - 1 {
        assert forall|j: int|
            0 <= j < rows.drop_last().len() implies row_error(
            #[trigger] rows.drop_last()[j],
        ) is None by {
            assert(rows.drop_last()[j] == rows[j]);
        }
        lemma_first_row_error_none(rows.drop_last());
        assert(rows.last() == rows[i]);
    } else {
        lemma_first_row_error_prefix(rows.drop_last(), i);
        assert(rows.drop_last()[i] == rows[i]);
    }
}

/// A table of error-free rows has no first error.
proof fn lemma_first_row_error_none(rows: Seq<Seq<Seq<char>>>)
    requires
        forall|j: int| 0 <= j < rows.len() ==> row_error(#[trigger] rows[j]) is None,
    ensures
        first_row_error(rows) is None,
    decreases rows.len(),
{
    if rows.len() > 0 {
        assert forall|j: int|
            0 <= j < rows.drop_last().len() implies row_error(
            #[trigger] rows.drop_last()[j],
        ) is None by {
            assert(rows.drop_last()[j] == rows[j]);
        }
        lemma_first_row_error_none(rows.drop_last());
    }
}

/// Every prefix sum of scaled weights is bounded by the full sum.
proof fn lemma_weight_total_prefix_bound(rows: Seq<Seq<Seq<char>>>, maxf: int, i: int)
    requires
        0 <= i <= rows.len(),
    ensures
        weight_total(rows.take(i), maxf) <= weight_total(rows, maxf),
    decreases rows.len() - i,
{
    if i < rows.len() {
        assert(rows.take(i + 1).drop_last() =~= rows.take(i));
        assert(rows.take(i + 1).last() == rows[i]);
        lemma_scaled_nonneg(rows[i], maxf);
        lemma_weight_total_prefix_bound(rows, maxf, i + 1);
    } else {
        assert(rows.take(i) =~= rows);
    }
}

/// A scaled weight is never negative.
proof fn lemma_scaled_nonneg(row: Seq<Seq<char>>, maxf: int)
    ensures
        scaled_weight(row, maxf) >= 0,
{
    let e = (maxf - weight_frac(row[5])) as nat;
    lemma_pow_positive(10, e);
    assert(scaled_weight(row, maxf) >= 0) by (nonlinear_arith)
        requires
            scaled_weight(row, maxf) == weight_mantissa(row[5]) as int * pow(10, e),
            pow(10, e) >= 1,
    ;
}

impl Codify for Record {
    /// A rule renders as a `Record` struct initializer.
    open spec fn spec_init_code(&self) -> Seq<char> {
        "Record {\n    path_pattern: \""@ + self.matcher.pattern_spec() + "\",\n    fixed: "@
            + spec_bool_code(self.fixed) + ",\n    source: "@ + spec_bool_code(self.source)
            + ",\n    module: "@ + spec_bool_code(self.module) + ",\n    arbitrary_content: "@
            + self.arbitrary_content.spec_init_code() + ",\n    weight: "@ + spec_dec(
            self.weight as nat,
        ) + ",\n    description: \""@ + self.description@ + "\",\n}"@
    }

    fn init_code(&self) -> (r: String) {
        let mut out = String::from_str("Record {\n    path_pattern: \"");
        out.append(self.matcher.pattern());
        out.append("\",\n    fixed: ");
        out.append(bool_code(self.fixed));
        out.append(",\n    source: ");
        out.append(bool_code(self.source));
        out.append(",\n    module: ");
        out.append(bool_code(self.module));
        out.append(",\n    arbitrary_content: ");
        out.append(self.arbitrary_content.init_code());
        out.append(",\n    weight: ");
        let weight_text = u64_to_dec(self.weight);
        out.append(weight_text.as_str());
        out.append(",\n    description: \"");
        out.append(self.description.as_str());
        out.append("\",\n}");
        out
    }
}

impl Codify for DirStandard {
    /// A standard renders as a `DirStandard` struct initializer holding
    /// its rules.
    open spec fn spec_init_code(&self) -> Seq<char> {
        "DirStandard {\n    records: "@ + ("vec!(\n"@ + crate::codify::spec_codify_list(
            self.spec_records(),
        ) + ")"@) + ",\n}"@
    }

    fn init_code(&self) -> (r: String) {
        let mut out = String::from_str("DirStandard {\n    records: ");
        let body = self.records.init_code();
        out.append(body.as_str());
        out.append(",\n}");
        out
    }
}

/// The normalization invariant of every loaded standard: the rule weights
/// sum to the standard's positive `weight_sum`, so the indicativeness
/// fractions `weight / weight_sum` of its rules sum to exactly one.
pub proof fn lemma_normalization(s: &DirStandard)
    requires
        s.wf(),
    ensures
        sum_record_weights(s.spec_records()) == s.spec_weight_sum() as int,
        s.spec_weight_sum() > 0,
{
}

} // verus!
