//! Evaluating a path listing against directory standards: coverage,
//! conformance rating, and module-directory extraction.

use vstd::prelude::*;

use crate::dir_std::format::DirStandard;
use crate::dir_std::format::Record;
use crate::pattern::regex_accepts;
use crate::strutil::str_eq;

verus! {

/// The relative paths of a listing that match `pattern`, in listing
/// order.
pub open spec fn spec_matching(pattern: Seq<char>, paths: Seq<Seq<char>>) -> Seq<Seq<char>>
    decreases paths.len(),
{
    if paths.len() == 0 {
        Seq::empty()
    } else {
        let prefix = spec_matching(pattern, paths.drop_last());
        if regex_accepts(pattern, paths.last()) {
            prefix.push(paths.last())
        } else {
            prefix
        }
    }
}

/// What one rule contributed to a coverage: the rule's weight and module
/// flag, and the paths it matched.
pub struct CoverageGroup {
    /// The rule's scaled weight.
    pub weight: u64,
    /// Whether matches of this rule are sub-module roots.
    pub module: bool,
    /// The matched paths, in listing order.
    pub paths: Vec<String>,
}

/// The sum of all group weights.
pub open spec fn sum_group_weights(groups: Seq<CoverageGroup>) -> int
    decreases groups.len(),
{
    if groups.len() == 0 {
        0
    } else {
        sum_group_weights(groups.drop_last()) + groups.last().weight as int
    }
}

/// The sum of the weights of the groups that matched at least one path:
/// the numerator of the conformance rating.
pub open spec fn matched_weight(groups: Seq<CoverageGroup>) -> int
    decreases groups.len(),
{
    if groups.len() == 0 {
        0
    } else {
        matched_weight(groups.drop_last()) + if groups.last().paths.len() > 0 {
            groups.last().weight as int
        } else {
            0
        }
    }
}

/// The concatenation, over the module-flagged groups, of their matched
/// paths, in rule order.
pub open spec fn spec_module_dirs(groups: Seq<CoverageGroup>) -> Seq<Seq<char>>
    decreases groups.len(),
{
    if groups.len() == 0 {
        Seq::empty()
    } else {
        spec_module_dirs(groups.drop_last()) + if groups.last().module {
            groups.last().paths.deep_view()
        } else {
            Seq::empty()
        }
    }
}

/// Which paths of a listing are covered by which rules of one standard:
/// one group per rule, in rule order. Built by [`Coverage::check`],
/// consumed by [`Coverage::rate`] and [`Coverage::module_dirs`], and
/// discarded.
pub struct Coverage {
    groups: Vec<CoverageGroup>,
    weight_sum: u64,
}

/// Whether `c` is the coverage of `paths` against `std`: group `i` holds
/// rule `i`'s weight and module flag, and exactly the paths that rule
/// `i`'s pattern matches, in listing order.
pub open spec fn is_coverage_of(c: Coverage, std: DirStandard, paths: Seq<Seq<char>>) -> bool {
    &&& c.spec_weight_sum() == std.spec_weight_sum()
    &&& c.spec_groups().len() == std.spec_records().len()
    &&& forall|i: int|
        0 <= i < c.spec_groups().len() ==> {
            let g = #[trigger] c.spec_groups()[i];
            let r = std.spec_records()[i];
            &&& g.weight == r.weight
            &&& g.module == r.module
            &&& g.paths.deep_view() == spec_matching(r.matcher.pattern_spec(), paths)
        }
}

/// A conformance rating as an exact fraction `num / den` in `[0, 1]`:
/// the matched share of a standard's total weight.
#[derive(Debug, Clone, Copy, PartialEq, Eq, Structural)]
pub struct Rating {
    /// The summed weight of the rules that matched at least one path.
    pub num: u64,
    /// The standard's total weight.
    pub den: u64,
}

impl Coverage {
    /// The per-rule groups, in rule order.
    pub closed spec fn spec_groups(&self) -> Seq<CoverageGroup> {
        self.groups@
    }

    /// The total weight of the standard this coverage was built against.
    pub closed spec fn spec_weight_sum(&self) -> u64 {
        self.weight_sum
    }

    /// The coverage invariant: positive total weight, and the group
    /// weights sum to it.
    pub open spec fn wf(&self) -> bool {
        &&& self.spec_weight_sum() > 0
        &&& sum_group_weights(self.spec_groups()) == self.spec_weight_sum() as int
    }

    /// The per-rule groups, in rule order.
    pub fn groups(&self) -> (r: &Vec<CoverageGroup>)
        ensures
            r@ == self.spec_groups(),
    {
        &self.groups
    }

    /// The total weight of the standard this coverage was built against.
    pub fn weight_sum(&self) -> (r: u64)
        ensures
            r == self.spec_weight_sum(),
    {
        self.weight_sum
    }

    /// Matches every rule of `std` against every path of the listing and
    /// records, per rule, the full set of matching paths. The result is
    /// exactly determined by the listing and the standard; listing order
    /// is kept within each group.
    pub fn check(dirs_and_files: &Vec<String>, std: &DirStandard) -> (c: Coverage)
        ensures
            is_coverage_of(c, *std, dirs_and_files.deep_view()),
            std.wf() ==> c.wf(),
    {
        let records = std.records();
        let mut groups: Vec<CoverageGroup> = Vec::new();
        let mut i: usize = 0;
        while i < records.len()
            invariant
                i <= records.len(),
                records@ == std.spec_records(),
                groups@.len() == i,
                forall|k: int|
                    0 <= k < i ==> {
                        let g = #[trigger] groups@[k];
                        let r = std.spec_records()[k];
                        &&& g.weight == r.weight
                        &&& g.module == r.module
                        &&& g.paths.deep_view() == spec_matching(
                            r.matcher.pattern_spec(),
                            dirs_and_files.deep_view(),
                        )
                    },
                sum_group_weights(groups@) == crate::dir_std::format::sum_record_weights(
                    std.spec_records().take(i as int),
                ),
            decreases records.len() - i,
        {
            let record = &records[i];
            let mut matched: Vec<String> = Vec::new();
            let mut j: usize = 0;
            while j < dirs_and_files.len()
                invariant
                    j <= dirs_and_files.len(),
                    records@ == std.spec_records(),
                    0 <= i < records@.len(),
                    record == records@[i as int],
                    matched.deep_view() == spec_matching(
                        record.matcher.pattern_spec(),
                        dirs_and_files.deep_view().take(j as int),
                    ),
                decreases dirs_and_files.len() - j,
            {
                proof {
                    assert(dirs_and_files.deep_view().take(j + 1).drop_last()
                        =~= dirs_and_files.deep_view().take(j as int));
                    assert(dirs_and_files.deep_view().take(j + 1).last()
                        == dirs_and_files.deep_view()[j as int]);
                    assert(dirs_and_files.deep_view()[j as int] == dirs_and_files@[j as int]@);
                }
                if record.matcher.is_match(dirs_and_files[j].as_str()) {
                    matched.push(dirs_and_files[j].clone());
                    proof {
                        assert(matched.deep_view() =~= spec_matching(
                            record.matcher.pattern_spec(),
                            dirs_and_files.deep_view().take(j + 1),
                        ));
                    }
                } else {
                    proof {
                        assert(matched.deep_view() =~= spec_matching(
                            record.matcher.pattern_spec(),
                            dirs_and_files.deep_view().take(j + 1),
                        ));
                    }
                }
                j = j + 1;
            }
            proof {
                assert(dirs_and_files.deep_view().take(dirs_and_files@.len() as int)
                    =~= dirs_and_files.deep_view());
                assert(std.spec_records().take(i + 1).drop_last() =~= std.spec_records().take(
                    i as int,
                ));
                assert(std.spec_records().take(i + 1).last() == std.spec_records()[i as int]);
            }
            let group = CoverageGroup { weight: record.weight, module: record.module, paths: matched };
            let ghost pre_groups = groups@;
            groups.push(group);
            proof {
                assert(groups@.drop_last() =~= pre_groups);
            }
            i = i + 1;
        }
        proof {
            assert(std.spec_records().take(records@.len() as int) =~= std.spec_records());
        }
        Coverage { groups, weight_sum: std.weight_sum() }
    }

    /// Derives the conformance rating: the summed weight of the rules
    /// that matched at least one path, over the standard's total weight.
    /// The fraction always lies in `[0, 1]`; it is `1` exactly when
    /// every rule matched, and `0` exactly when none did.
    pub fn rate(&self) -> (r: Rating)
        requires
            self.wf(),
        ensures
            r.num as int == matched_weight(self.spec_groups()),
            r.den == self.spec_weight_sum(),
            r.num <= r.den,
            (forall|i: int|
                0 <= i < self.spec_groups().len() ==> #[trigger] self.spec_groups()[i].paths@.len()
                    > 0) ==> r.num == r.den,
            (forall|i: int|
                0 <= i < self.spec_groups().len() ==> #[trigger] self.spec_groups()[i].paths@.len()
                    == 0) ==> r.num == 0,
    {
        let mut num: u64 = 0;
        let mut i: usize = 0;
        while i < self.groups.len()
            invariant
                i <= self.groups.len(),
                self.wf(),
                num as int == matched_weight(self.spec_groups().take(i as int)),
            decreases self.groups.len() - i,
        {
            proof {
                assert(self.spec_groups().take(i + 1).drop_last() =~= self.spec_groups().take(
                    i as int,
                ));
                assert(self.spec_groups().take(i + 1).last() == self.spec_groups()[i as int]);
                lemma_matched_le_sum(self.spec_groups().take(i + 1));
                lemma_sum_group_weights_prefix(self.spec_groups(), i + 1);
                lemma_matched_nonneg(self.spec_groups().take(i as int));
            }
            if self.groups[i].paths.len() > 0 {
                num = num + self.groups[i].weight;
            }
            i = i + 1;
        }
        proof {
            assert(self.spec_groups().take(self.spec_groups().len() as int)
                =~= self.spec_groups());
            lemma_matched_le_sum(self.spec_groups());
            lemma_matched_nonneg(self.spec_groups());
            if forall|k: int|
                0 <= k < self.spec_groups().len() ==> #[trigger] self.spec_groups()[k].paths@.len()
                    > 0 {
                lemma_matched_full(self.spec_groups());
            }
            if forall|k: int|
                0 <= k < self.spec_groups().len() ==> #[trigger] self.spec_groups()[k].paths@.len()
                    == 0 {
                lemma_matched_empty(self.spec_groups());
            }
        }
        Rating { num, den: self.weight_sum }
    }

    /// The identified module (part) directories: every path matched by a
    /// rule whose `module` flag is set, in rule order then listing order.
    pub fn module_dirs(&self) -> (dirs: Vec<String>)
        ensures
            dirs.deep_view() == spec_module_dirs(self.spec_groups()),
    {
        let mut dirs: Vec<String> = Vec::new();
        let mut i: usize = 0;
        while i < self.groups.len()
            invariant
                i <= self.groups.len(),
                dirs.deep_view() == spec_module_dirs(self.spec_groups().take(i as int)),
            decreases self.groups.len() - i,
        {
            proof {
                assert(self.spec_groups().take(i + 1).drop_last() =~= self.spec_groups().take(
                    i as int,
                ));
                assert(self.spec_groups().take(i + 1).last() == self.spec_groups()[i as int]);
            }
            if self.groups[i].module {
                let paths = &self.groups[i].paths;
                let mut j: usize = 0;
                while j < paths.len()
                    invariant
                        j <= paths.len(),
                        0 <= i < self.spec_groups().len(),
                        paths == self.spec_groups()[i as int].paths,
                        dirs.deep_view() == spec_module_dirs(self.spec_groups().take(i as int))
                            + paths.deep_view().take(j as int),
                    decreases paths.len() - j,
                {
                    let ghost pre_dirs = dirs.deep_view();
                    dirs.push(paths[j].clone());
                    proof {
                        assert(paths.deep_view()[j as int] == paths@[j as int]@);
                        assert(dirs.deep_view() =~= pre_dirs.push(paths@[j as int]@));
                        assert(dirs.deep_view() =~= spec_module_dirs(
                            self.spec_groups().take(i as int),
                        ) + paths.deep_view().take(j + 1));
                    }
                    j = j + 1;
                }
                proof {
                    assert(paths.deep_view().take(paths@.len() as int) =~= paths.deep_view());
                    assert(dirs.deep_view() =~= spec_module_dirs(self.spec_groups().take(i + 1)));
                }
            } else {
                proof {
                    assert(dirs.deep_view() =~= spec_module_dirs(self.spec_groups().take(i + 1)));
                }
            }
            i = i + 1;
        }
        proof {
            assert(self.spec_groups().take(self.spec_groups().len() as int)
                =~= self.spec_groups());
        }
        dirs
    }
}

/// The matched weight never exceeds the summed weight.
proof fn lemma_matched_le_sum(groups: Seq<CoverageGroup>)
    ensures
        matched_weight(groups) <= sum_group_weights(groups),
    decreases groups.len(),
{
    if groups.len() > 0 {
        lemma_matched_le_sum(groups.drop_last());
    }
}

/// The matched weight is never negative.
proof fn lemma_matched_nonneg(groups: Seq<CoverageGroup>)
    ensures
        matched_weight(groups) >= 0,
    decreases groups.len(),
{
    if groups.len() > 0 {
        lemma_matched_nonneg(groups.drop_last());
    }
}

/// Every prefix sum of group weights is bounded by the full sum.
proof fn lemma_sum_group_weights_prefix(groups: Seq<CoverageGroup>, i: int)
    requires
        0 <= i <= groups.len(),
    ensures
        sum_group_weights(groups.take(i)) <= sum_group_weights(groups),
    decreases groups.len() - i,
{
    if i < groups.len() {
        assert(groups.take(i + 1).drop_last() =~= groups.take(i));
        assert(groups.take(i + 1).last() == groups[i]);
        lemma_sum_group_weights_prefix(groups, i + 1);
    } else {
        assert(groups.take(i) =~= groups);
    }
}

/// When every group matched at least one path, the matched weight is the
/// whole summed weight.
proof fn lemma_matched_full(groups: Seq<CoverageGroup>)
    requires
        forall|i: int| 0 <= i < groups.len() ==> #[trigger] groups[i].paths@.len() > 0,
    ensures
        matched_weight(groups) == sum_group_weights(groups),
    decreases groups.len(),
{
    if groups.len() > 0 {
        assert forall|i: int|
            0 <= i < groups.drop_last().len() implies #[trigger] groups.drop_last()[i].paths@.len()
            > 0 by {
            assert(groups.drop_last()[i] == groups[i]);
        }
        assert(groups.last() == groups[groups.len() - 1]);
        assert(groups.last().paths@.len() == groups.last().paths.deep_view().len());
        lemma_matched_full(groups.drop_last());
    }
}

/// When no group matched any path, the matched weight is zero.
proof fn lemma_matched_empty(groups: Seq<CoverageGroup>)
    requires
        forall|i: int| 0 <= i < groups.len() ==> #[trigger] groups[i].paths@.len() == 0,
    ensures
        matched_weight(groups) == 0,
    decreases groups.len(),
{
    if groups.len() > 0 {
        assert forall|i: int|
            0 <= i < groups.drop_last().len() implies #[trigger] groups.drop_last()[i].paths@.len()
            == 0 by {
            assert(groups.drop_last()[i] == groups[i]);
        }
        assert(groups.last() == groups[groups.len() - 1]);
        lemma_matched_empty(groups.drop_last());
    }
}

/// The conformance rating is bounded: for every well-formed coverage the
/// matched weight lies between zero and the standard's total weight, so
/// the rating fraction lies in `[0, 1]`.
pub proof fn lemma_rating_bounds(c: &Coverage)
    requires
        c.wf(),
    ensures
        0 <= matched_weight(c.spec_groups()),
        matched_weight(c.spec_groups()) <= c.spec_weight_sum() as int,
{
    lemma_matched_nonneg(c.spec_groups());
    lemma_matched_le_sum(c.spec_groups());
}

/// Evaluation is deterministic: any two coverages of the same listing
/// against the same standard have identical contents — the same weights,
/// the same module flags, and the same matched paths per rule.
pub proof fn lemma_check_deterministic(
    c1: &Coverage,
    c2: &Coverage,
    std: DirStandard,
    paths: Seq<Seq<char>>,
)
    requires
        is_coverage_of(*c1, std, paths),
        is_coverage_of(*c2, std, paths),
    ensures
        c1.spec_weight_sum() == c2.spec_weight_sum(),
        c1.spec_groups().len() == c2.spec_groups().len(),
        forall|i: int|
            0 <= i < c1.spec_groups().len() ==> {
                let g1 = #[trigger] c1.spec_groups()[i];
                let g2 = c2.spec_groups()[i];
                g1.weight == g2.weight && g1.module == g2.module && g1.paths.deep_view()
                    == g2.paths.deep_view()
            },
{
}

/// The group weights of a coverage sum to the weights of the rules they
/// were built from.
proof fn lemma_sum_weights_agrees(groups: Seq<CoverageGroup>, records: Seq<Record>)
    requires
        groups.len() == records.len(),
        forall|i: int| 0 <= i < groups.len() ==> (#[trigger] groups[i]).weight == records[i].weight,
    ensures
        sum_group_weights(groups) == crate::dir_std::format::sum_record_weights(records),
    decreases groups.len(),
{
    if groups.len() > 0 {
        assert forall|i: int|
            0 <= i < groups.drop_last().len() implies (#[trigger] groups.drop_last()[i]).weight
            == records.drop_last()[i].weight by {
            assert(groups.drop_last()[i] == groups[i]);
            assert(records.drop_last()[i] == records[i]);
        }
        lemma_sum_weights_agrees(groups.drop_last(), records.drop_last());
        assert(groups.last() == groups[groups.len() - 1]);
        assert(records.last() == records[records.len() - 1]);
    }
}

/// Full-match idempotence: when every rule of the standard matches at
/// least one path of the listing, the coverage's matched weight is the
/// standard's whole weight, so the conformance rating is exactly one.
pub proof fn lemma_full_match_rates_one(c: &Coverage, std: DirStandard, paths: Seq<Seq<char>>)
    requires
        std.wf(),
        is_coverage_of(*c, std, paths),
        forall|i: int|
            0 <= i < std.spec_records().len() ==> spec_matching(
                (#[trigger] std.spec_records()[i]).matcher.pattern_spec(),
                paths,
            ).len() > 0,
    ensures
        matched_weight(c.spec_groups()) == c.spec_weight_sum() as int,
        c.spec_weight_sum() > 0,
{
    assert forall|i: int|
        0 <= i < c.spec_groups().len() implies (#[trigger] c.spec_groups()[i]).paths@.len()
        > 0 by {
        assert(c.spec_groups()[i].paths.deep_view() == spec_matching(
            std.spec_records()[i].matcher.pattern_spec(),
            paths,
        ));
        assert(c.spec_groups()[i].paths@.len() == c.spec_groups()[i].paths.deep_view().len());
    }
    lemma_matched_full(c.spec_groups());
    assert forall|i: int|
        0 <= i < c.spec_groups().len() implies (#[trigger] c.spec_groups()[i]).weight
        == std.spec_records()[i].weight by {}
    lemma_sum_weights_agrees(c.spec_groups(), std.spec_records());
}

/// No-match floor: when no rule of the standard matches any path of the
/// listing, the coverage's matched weight is zero, so the conformance
/// rating is exactly zero.
pub proof fn lemma_no_match_rates_zero(c: &Coverage, std: DirStandard, paths: Seq<Seq<char>>)
    requires
        is_coverage_of(*c, std, paths),
        forall|i: int|
            0 <= i < std.spec_records().len() ==> spec_matching(
                (#[trigger] std.spec_records()[i]).matcher.pattern_spec(),
                paths,
            ).len() == 0,
    ensures
        matched_weight(c.spec_groups()) == 0,
{
    assert forall|i: int|
        0 <= i < c.spec_groups().len() implies (#[trigger] c.spec_groups()[i]).paths@.len()
        == 0 by {
        assert(c.spec_groups()[i].paths.deep_view() == spec_matching(
            std.spec_records()[i].matcher.pattern_spec(),
            paths,
        ));
        assert(c.spec_groups()[i].paths@.len() == c.spec_groups()[i].paths.deep_view().len());
    }
    lemma_matched_empty(c.spec_groups());
}

/// The matched weight of a standard's rules over a listing, defined
/// straight from the rules; what [`Coverage::rate`] computes after
/// [`Coverage::check`].
pub open spec fn matched_weight_records(records: Seq<Record>, paths: Seq<Seq<char>>) -> int
    decreases records.len(),
{
    if records.len() == 0 {
        0
    } else {
        matched_weight_records(records.drop_last(), paths) + if spec_matching(
            records.last().matcher.pattern_spec(),
            paths,
        ).len() > 0 {
            records.last().weight as int
        } else {
            0
        }
    }
}

/// A coverage's matched weight agrees with the one defined straight from
/// the standard's rules.
proof fn lemma_matched_weight_agrees(
    groups: Seq<CoverageGroup>,
    records: Seq<Record>,
    paths: Seq<Seq<char>>,
)
    requires
        groups.len() == records.len(),
        forall|i: int|
            0 <= i < groups.len() ==> {
                let g = #[trigger] groups[i];
                let r = records[i];
                g.weight == r.weight && g.paths.deep_view() == spec_matching(
                    r.matcher.pattern_spec(),
                    paths,
                )
            },
    ensures
        matched_weight(groups) == matched_weight_records(records, paths),
    decreases groups.len(),
{
    if groups.len() > 0 {
        assert forall|i: int|
            0 <= i < groups.drop_last().len() implies {
            let g = #[trigger] groups.drop_last()[i];
            let r = records.drop_last()[i];
            g.weight == r.weight && g.paths.deep_view() == spec_matching(
                r.matcher.pattern_spec(),
                paths,
            )
        } by {
            assert(groups.drop_last()[i] == groups[i]);
            assert(records.drop_last()[i] == records[i]);
        }
        lemma_matched_weight_agrees(groups.drop_last(), records.drop_last(), paths);
        assert(groups.last() == groups[groups.len() - 1]);
        assert(records.last() == records[records.len() - 1]);
        assert(groups.last().paths@.len() == groups.last().paths.deep_view().len());
    }
}

/// The process-wide table of known directory standards, built once at
/// start-up and read-only afterwards.
pub struct Registry {
    stds: Vec<DirStandard>,
}

impl Registry {
    /// The registered standards, in registration order.
    pub closed spec fn spec_stds(&self) -> Seq<DirStandard> {
        self.stds@
    }

    /// Every registered standard is well-formed.
    pub open spec fn wf(&self) -> bool {
        forall|i: int| 0 <= i < self.spec_stds().len() ==> (#[trigger] self.spec_stds()[i]).wf()
    }

    /// An empty registry.
    pub fn new() -> (r: Registry)
        ensures
            r.spec_stds().len() == 0,
            r.wf(),
    {
        Registry { stds: Vec::new() }
    }

    /// Installs one more standard.
    pub fn register(&mut self, std: DirStandard)
        requires
            old(self).wf(),
            std.wf(),
        ensures
            final(self).spec_stds() == old(self).spec_stds().push(std),
            final(self).wf(),
    {
        let ghost entry = std;
        self.stds.push(std);
        proof {
            assert forall|i: int|
                0 <= i < self.spec_stds().len() implies (#[trigger] self.spec_stds()[i]).wf() by {
                if i < old(self).spec_stds().len() {
                    assert(self.spec_stds()[i] == old(self).spec_stds()[i]);
                } else {
                    assert(self.spec_stds()[i] == entry);
                }
            }
        }
    }

    /// The registered standards, in registration order.
    pub fn standards(&self) -> (r: &Vec<DirStandard>)
        ensures
            r@ == self.spec_stds(),
    {
        &self.stds
    }

    /// Looks a standard up by name.
    pub fn get(&self, name: &str) -> (r: Option<&DirStandard>)
        ensures
            r is Some <==> exists|i: int|
                0 <= i < self.spec_stds().len() && (#[trigger] self.spec_stds()[i]).spec_name()
                    == name@,
            r matches Some(s) ==> exists|i: int|
                0 <= i < self.spec_stds().len() && *s == #[trigger] self.spec_stds()[i]
                    && s.spec_name() == name@,
            r matches Some(s) ==> (self.wf() ==> s.wf()),
    {
        let mut i: usize = 0;
        while i < self.stds.len()
            invariant
                i <= self.stds.len(),
                forall|j: int|
                    0 <= j < i ==> (#[trigger] self.spec_stds()[j]).spec_name() != name@,
            decreases self.stds.len() - i,
        {
            if str_eq(self.stds[i].name().as_str(), name) {
                proof {
                    assert(0 <= i < self.spec_stds().len());
                    assert(self.spec_stds()[i as int].spec_name() == name@);
                }
                return Option::Some(&self.stds[i]);
            }
            i = i + 1;
        }
        Option::None
    }
}

/// Rates a path listing against every registered standard: one
/// `(name, rating)` pair per standard, in registration order. Each
/// rating's numerator is the standard's matched weight over the listing,
/// its denominator the standard's total weight.
pub fn rate_listing(dirs_and_files: &Vec<String>, registry: &Registry) -> (ratings: Vec<
    (String, Rating),
>)
    requires
        registry.wf(),
    ensures
        ratings.len() == registry.spec_stds().len(),
        forall|i: int|
            0 <= i < ratings.len() ==> {
                let s = registry.spec_stds()[i];
                &&& (#[trigger] ratings[i]).0@ == s.spec_name()
                &&& ratings[i].1.den == s.spec_weight_sum()
                &&& ratings[i].1.num as int == matched_weight_records(
                    s.spec_records(),
                    dirs_and_files.deep_view(),
                )
            },
{
    let stds = registry.standards();
    let mut ratings: Vec<(String, Rating)> = Vec::new();
    let mut i: usize = 0;
    while i < stds.len()
        invariant
            i <= stds.len(),
            stds@ == registry.spec_stds(),
            registry.wf(),
            ratings@.len() == i,
            forall|k: int|
                0 <= k < i ==> {
                    let s = registry.spec_stds()[k];
                    &&& (#[trigger] ratings@[k]).0@ == s.spec_name()
                    &&& ratings@[k].1.den == s.spec_weight_sum()
                    &&& ratings@[k].1.num as int == matched_weight_records(
                        s.spec_records(),
                        dirs_and_files.deep_view(),
                    )
                },
        decreases stds.len() - i,
    {
        let std = &stds[i];
        let coverage = Coverage::check(dirs_and_files, std);
        let rating = coverage.rate();
        proof {
            lemma_matched_weight_agrees(
                coverage.spec_groups(),
                std.spec_records(),
                dirs_and_files.deep_view(),
            );
        }
        ratings.push((std.name().clone(), rating));
        i = i + 1;
    }
    ratings
}

} // verus!
