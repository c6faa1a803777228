//! SPDX license validation, readiness ladders, file-type columns, and
//! the initializer-text rendering.

use okh_tool::codify::Codify;
use okh_tool::dir_std::format::OptBool;
use okh_tool::dir_std::format::Record;
use okh_tool::file_types_format::Format;
use okh_tool::file_types_format::Openness;
use okh_tool::file_types_format::Source;
use okh_tool::license::Error;
use okh_tool::license::ensure_spdx_license_id;
use okh_tool::license::validate_spdx_expr;
use okh_tool::oxrl::Odrl;
use okh_tool::oxrl::Otrl;
use okh_tool::oxrl::ParseError;
use okh_tool::pattern::PathMatcher;
use okh_tool::strutil::u64_to_dec;
use okh_tool::strutil::i64_to_dec;

#[test]
fn valid_spdx_expressions_pass_through() {
    assert_eq!(ensure_spdx_license_id("MIT"), "MIT");
    assert_eq!(ensure_spdx_license_id("MIT OR Apache-2.0"), "MIT OR Apache-2.0");
    assert_eq!(ensure_spdx_license_id("CERN-OHL-S-2.0"), "CERN-OHL-S-2.0");
}

#[test]
fn invalid_license_text_gets_a_license_ref() {
    assert_eq!(ensure_spdx_license_id("my own terms"), "LicenseRef-my own terms");
    assert_eq!(ensure_spdx_license_id(""), "LicenseRef-");
    assert_eq!(ensure_spdx_license_id("MIT OR"), "LicenseRef-MIT OR");
}

#[test]
fn empty_expressions_are_missing_licenses() {
    assert!(matches!(validate_spdx_expr("", false), Err(Error::NoLicense)));
    assert!(matches!(validate_spdx_expr("", true), Err(Error::NoLicense)));
}

#[test]
fn malformed_expressions_fail_to_parse() {
    assert!(matches!(validate_spdx_expr("MIT OR", false), Err(Error::ParsingFailed)));
    assert!(matches!(validate_spdx_expr("not a license", false), Err(Error::ParsingFailed)));
    assert!(validate_spdx_expr("MIT", false).is_ok());
}

#[test]
fn osi_approval_is_checked_when_asked() {
    assert!(validate_spdx_expr("MIT", true).is_ok());
    match validate_spdx_expr("CC-BY-NC-4.0", true) {
        Err(Error::NotApproved(e)) => {
            assert_eq!(e.expression, "CC-BY-NC-4.0");
            assert!(!e.failed.is_empty());
        },
        _ => panic!("expected a not-approved error"),
    }
}

#[test]
fn readiness_ladders_convert_both_ways() {
    assert_eq!(Otrl::try_from(3), Ok(Otrl::Development));
    assert_eq!(Otrl::Development.to_index(), 3);
    assert_eq!(Otrl::try_from(0), Err(ParseError::InvalidIndex(0)));
    assert_eq!(Otrl::try_from(7), Err(ParseError::InvalidIndex(7)));
    assert_eq!(Odrl::try_from(4), Ok(Odrl::Audited));
    assert_eq!(Odrl::QualificationReady.to_index(), 5);
    assert_eq!(Odrl::try_from(6), Err(ParseError::InvalidIndex(6)));
}

#[test]
fn file_type_columns_parse_exactly() {
    assert_eq!(Openness::try_from("open"), Ok(Openness::Open));
    assert_eq!(Openness::try_from("proprietary"), Ok(Openness::Proprietary));
    assert_eq!(Openness::try_from("unknown"), Ok(Openness::Unknown));
    assert_eq!(Openness::try_from("secret"), Err("Invalid Open column value: 'secret'".to_string()));
    assert_eq!(Openness::from(Some(true)), Openness::Open);
    assert_eq!(Openness::from(Some(false)), Openness::Proprietary);
    assert_eq!(Openness::from(None), Openness::Unknown);

    assert_eq!(Format::try_from("both"), Ok(Format::Both));
    assert_eq!(Format::try_from("ascii"), Err("Invalid Text column value: 'ascii'".to_string()));

    assert_eq!(Source::try_from("export"), Ok(Source::Export));
    assert_eq!(Source::try_from("copy"), Err("Invalid Source column value: 'copy'".to_string()));
    assert_eq!(Source::from(true), Source::Source);
    assert_eq!(Source::from(false), Source::Export);
}

#[test]
fn decimal_rendering_is_exact() {
    assert_eq!(u64_to_dec(0), "0");
    assert_eq!(u64_to_dec(7), "7");
    assert_eq!(u64_to_dec(12345), "12345");
    assert_eq!(u64_to_dec(u64::MAX), format!("{}", u64::MAX));
    assert_eq!(i64_to_dec(-12345), "-12345");
    assert_eq!(i64_to_dec(i64::MIN), format!("{}", i64::MIN));
    assert_eq!(i64_to_dec(0), "0");
}

#[test]
fn strings_and_lists_render_as_initializers() {
    assert_eq!("hi".to_string().init_code(), "\"hi\"");
    let list = vec!["a".to_string(), "b".to_string()];
    assert_eq!(list.init_code(), "vec!(\n\"a\",\n\"b\",\n)");
    let empty: Vec<String> = vec![];
    assert_eq!(empty.init_code(), "vec!(\n)");
}

#[test]
fn records_render_as_initializers() {
    let record = Record {
        matcher: PathMatcher::new("^src/$").unwrap(),
        fixed: true,
        source: false,
        module: true,
        arbitrary_content: OptBool::Unknown,
        weight: 42,
        description: "sources".to_string(),
    };
    let code = record.init_code();
    assert!(code.starts_with("Record {"));
    assert!(code.contains("path_pattern: \"^src/$\""));
    assert!(code.contains("fixed: true"));
    assert!(code.contains("source: false"));
    assert!(code.contains("module: true"));
    assert!(code.contains("arbitrary_content: None"));
    assert!(code.contains("weight: 42"));
    assert!(code.contains("description: \"sources\""));
}
