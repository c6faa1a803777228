//! The directory-standard loader and the coverage evaluator, on concrete
//! standards and path listings.

use okh_tool::dir_std::format::DirStandard;
use okh_tool::dir_std::format::OptBool;
use okh_tool::dir_std::format::ParseError;
use okh_tool::dir_std::format::RawRecord;
use okh_tool::dir_std::identifier::Coverage;
use okh_tool::dir_std::identifier::Registry;
use okh_tool::dir_std::identifier::rate_listing;

fn raw(
    pattern: &str,
    fixed: &str,
    source: &str,
    module: &str,
    arbitrary: &str,
    weight: &str,
    description: &str,
) -> RawRecord {
    RawRecord {
        path_pattern: pattern.to_string(),
        fixed: fixed.to_string(),
        source: source.to_string(),
        module: module.to_string(),
        arbitrary_content: arbitrary.to_string(),
        indicativeness: weight.to_string(),
        description: description.to_string(),
    }
}

fn two_rule_standard() -> DirStandard {
    let rows = vec![
        raw("^src/.*\\.c$", "false", "true", "false", "-", "3", "C sources"),
        raw("^src/.*/$", "false", "false", "true", "true", "1", "source subdirectories"),
    ];
    DirStandard::from_records("unixish", &rows).unwrap()
}

fn paths(items: &[&str]) -> Vec<String> {
    items.iter().map(|s| s.to_string()).collect()
}

#[test]
fn normalization_weights_sum_to_one() {
    let std = two_rule_standard();
    let total: u64 = std.records().iter().map(|r| r.weight).sum();
    assert_eq!(total, std.weight_sum());
    assert!(std.weight_sum() > 0);
    // The first rule's indicativeness is 3/4, the second's 1/4.
    assert_eq!(std.records()[0].weight as f64 / std.weight_sum() as f64, 0.75);
    assert_eq!(std.records()[1].weight as f64 / std.weight_sum() as f64, 0.25);
    let sum: f64 = std
        .records()
        .iter()
        .map(|r| r.weight as f64 / std.weight_sum() as f64)
        .sum();
    assert_eq!(sum, 1.0);
}

#[test]
fn normalization_of_decimal_weights_is_exact() {
    let rows = vec![
        raw("^a$", "true", "false", "false", "-", "0.75", ""),
        raw("^b$", "false", "true", "false", "false", "0.25", ""),
    ];
    let std = DirStandard::from_records("decimals", &rows).unwrap();
    assert_eq!(std.records()[0].weight, 75);
    assert_eq!(std.records()[1].weight, 25);
    assert_eq!(std.weight_sum(), 100);
}

#[test]
fn mixed_scale_weights_share_a_denominator() {
    let rows = vec![
        raw("^a$", "true", "false", "false", "-", "1", ""),
        raw("^b$", "false", "true", "false", "-", "0.5", ""),
    ];
    let std = DirStandard::from_records("mixed", &rows).unwrap();
    assert_eq!(std.records()[0].weight, 10);
    assert_eq!(std.records()[1].weight, 5);
    assert_eq!(std.weight_sum(), 15);
}

#[test]
fn zero_weight_sum_is_rejected() {
    let rows = vec![
        raw("^a$", "true", "false", "false", "-", "0", ""),
        raw("^b$", "false", "true", "false", "-", "0.0", ""),
    ];
    assert_eq!(
        DirStandard::from_records("degenerate", &rows).unwrap_err(),
        ParseError::ZeroWeightSum
    );
}

#[test]
fn empty_record_set_is_rejected() {
    let rows: Vec<RawRecord> = vec![];
    assert_eq!(
        DirStandard::from_records("empty", &rows).unwrap_err(),
        ParseError::ZeroWeightSum
    );
}

#[test]
fn malformed_fields_are_rejected_first() {
    // A bad boolean in the first row wins over a bad pattern later.
    let rows = vec![
        raw("^a$", "yes", "false", "false", "-", "1", ""),
        raw("(", "true", "false", "false", "-", "1", ""),
    ];
    assert_eq!(
        DirStandard::from_records("bad", &rows).unwrap_err(),
        ParseError::InvalidField
    );
}

#[test]
fn malformed_weight_is_an_invalid_field() {
    let rows = vec![raw("^a$", "true", "false", "false", "-", "1.2.3", "")];
    assert_eq!(
        DirStandard::from_records("bad", &rows).unwrap_err(),
        ParseError::InvalidField
    );
}

#[test]
fn invalid_pattern_is_rejected() {
    let rows = vec![raw("(", "true", "false", "false", "-", "1", "")];
    assert_eq!(
        DirStandard::from_records("bad", &rows).unwrap_err(),
        ParseError::InvalidRegex
    );
}

#[test]
fn oversized_weight_is_rejected() {
    let rows = vec![raw("^a$", "true", "false", "false", "-", "99999999999999999999999999", "")];
    assert_eq!(
        DirStandard::from_records("huge", &rows).unwrap_err(),
        ParseError::WeightOverflow
    );
}

#[test]
fn record_fields_carry_over() {
    let std = two_rule_standard();
    assert_eq!(std.name(), "unixish");
    assert_eq!(std.records().len(), 2);
    let first = &std.records()[0];
    assert_eq!(first.matcher.pattern(), "^src/.*\\.c$");
    assert!(!first.fixed);
    assert!(first.source);
    assert!(!first.module);
    assert_eq!(first.arbitrary_content, OptBool::Unknown);
    assert_eq!(first.description, "C sources");
    let second = &std.records()[1];
    assert!(second.module);
    assert_eq!(second.arbitrary_content, OptBool::True);
}

#[test]
fn scenario_full_match_rates_one() {
    let std = two_rule_standard();
    let listing = paths(&["src/main.c", "src/lib/"]);
    let coverage = Coverage::check(&listing, &std);
    let rating = coverage.rate();
    assert_eq!(rating.num, rating.den);
    assert_eq!(rating.num as f64 / rating.den as f64, 1.0);
    let dirs = coverage.module_dirs();
    assert_eq!(dirs, vec!["src/lib/".to_string()]);
}

#[test]
fn scenario_no_match_rates_zero() {
    let std = two_rule_standard();
    let listing = paths(&["docs/readme.md"]);
    let coverage = Coverage::check(&listing, &std);
    let rating = coverage.rate();
    assert_eq!(rating.num, 0);
    assert_eq!(rating.num as f64 / rating.den as f64, 0.0);
    assert!(coverage.module_dirs().is_empty());
}

#[test]
fn partial_match_rating_stays_in_bounds() {
    let std = two_rule_standard();
    let listing = paths(&["src/main.c", "docs/readme.md"]);
    let rating = Coverage::check(&listing, &std).rate();
    assert!(rating.num <= rating.den);
    assert_eq!(rating.num, 3);
    assert_eq!(rating.den, 4);
    let value = rating.num as f64 / rating.den as f64;
    assert!((0.0..=1.0).contains(&value));
    assert_eq!(value, 0.75);
}

#[test]
fn evaluation_is_deterministic() {
    let std = two_rule_standard();
    let listing = paths(&["src/main.c", "src/lib/", "docs/readme.md"]);
    let first = Coverage::check(&listing, &std);
    let second = Coverage::check(&listing, &std);
    assert_eq!(first.groups().len(), second.groups().len());
    for (a, b) in first.groups().iter().zip(second.groups().iter()) {
        assert_eq!(a.weight, b.weight);
        assert_eq!(a.module, b.module);
        assert_eq!(a.paths, b.paths);
    }
    assert_eq!(first.rate(), second.rate());
}

#[test]
fn coverage_keeps_all_matching_paths_in_listing_order() {
    let std = two_rule_standard();
    let listing = paths(&["src/a.c", "src/b.c", "other", "src/lib/"]);
    let coverage = Coverage::check(&listing, &std);
    assert_eq!(coverage.groups()[0].paths, vec!["src/a.c".to_string(), "src/b.c".to_string()]);
    assert_eq!(coverage.groups()[1].paths, vec!["src/lib/".to_string()]);
}

#[test]
fn csv_text_loads_like_records() {
    let csv_text = "Pattern,Fixed,Source,Module,ArbitraryContent,Indicativeness,Description\n\
^src/.*\\.c$,false,true,false,-,3,C sources\n\
\"^src/.*/$\",false,false,true,true,1,\"source, subdirectories\"\n";
    let std = DirStandard::from_csv_str("unixish", csv_text).unwrap();
    assert_eq!(std.records().len(), 2);
    assert_eq!(std.weight_sum(), 4);
    assert_eq!(std.records()[1].description, "source, subdirectories");
}

#[test]
fn csv_rows_need_all_columns() {
    let csv_text = "Pattern,Fixed,Source,Module,ArbitraryContent,Indicativeness,Description\n\
^a$,true,false,false\n";
    assert_eq!(
        DirStandard::from_csv_str("short", csv_text).unwrap_err(),
        ParseError::Csv
    );
}

#[test]
fn registry_lookup_and_listing_rating() {
    let mut registry = Registry::new();
    registry.register(two_rule_standard());
    let other = DirStandard::from_records(
        "docsish",
        &vec![raw("^docs/.*$", "false", "false", "false", "-", "1", "")],
    )
    .unwrap();
    registry.register(other);

    assert!(registry.get("unixish").is_some());
    assert_eq!(registry.get("unixish").unwrap().name(), "unixish");
    assert!(registry.get("missing").is_none());

    let listing = paths(&["src/main.c", "src/lib/"]);
    let ratings = rate_listing(&listing, &registry);
    assert_eq!(ratings.len(), 2);
    assert_eq!(ratings[0].0, "unixish");
    assert_eq!(ratings[0].1.num, 4);
    assert_eq!(ratings[0].1.den, 4);
    assert_eq!(ratings[1].0, "docsish");
    assert_eq!(ratings[1].1.num, 0);
    assert_eq!(ratings[1].1.den, 1);
}

#[test]
fn opt_bool_conversions() {
    assert_eq!(OptBool::True.to_native(), Some(true));
    assert_eq!(OptBool::False.to_native(), Some(false));
    assert_eq!(OptBool::Unknown.to_native(), None);
    assert_eq!(OptBool::True.init_code(), "Some(true)");
    assert_eq!(OptBool::False.init_code(), "Some(false)");
    assert_eq!(OptBool::Unknown.init_code(), "None");
}
