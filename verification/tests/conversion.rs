//! The v1-to-v2 manifest conversion, on concrete manifests.

use okh_tool::conversion::Error;
use okh_tool::conversion::v1_to_v2::collect_doc_path;
use okh_tool::conversion::v1_to_v2::collect_doc_paths;
use okh_tool::conversion::v1_to_v2::convert;
use okh_tool::conversion::v1_to_v2::is_prototype;
use okh_tool::conversion::v1_to_v2::shorten_to_repo_url;
use okh_tool::formats::v1;
use okh_tool::oxrl::Odrl;
use okh_tool::oxrl::Otrl;

fn minimal_v1() -> v1::Okh {
    v1::Okh {
        title: "  Widget  ".to_string(),
        description: "A widget.".to_string(),
        intended_use: None,
        keywords: vec![],
        project_link: None,
        image: None,
        made: false,
        made_independently: false,
        license: v1::License {
            hardware: Some("MIT".to_string()),
            documentation: None,
            software: None,
        },
        licensor: Some(v1::Person {
            name: Some(" Jane Doe ".to_string()),
            affiliation: None,
            email: Some(" jane@example.com ".to_string()),
        }),
        okh_manifest_version: Some("1.0.0".to_string()),
        date_created: Some("2020-01-01".to_string()),
        date_updated: Some("2021-06-15".to_string()),
        version: Some(" 2.1.0 ".to_string()),
        development_stage: None,
        documentation_home: Some("https://example.org/widget".to_string()),
        archive_download: None,
        documentation_language: Some(" en ".to_string()),
        bom: Some("bom.csv".to_string()),
        making_instructions: vec![],
        operating_instructions: vec![],
        software: vec![],
        health_safety_notice: None,
        standards_used: vec![],
        derivative_of: None,
        variant_of: None,
        sub_parts: vec![],
    }
}

#[test]
fn converts_a_complete_manifest() {
    let v2 = convert(minimal_v1(), Some(1234567890)).unwrap();
    assert_eq!(v2.okhv, "OKH-LOSHv1.0");
    assert_eq!(v2.name, "Widget");
    assert_eq!(v2.version, "2.1.0");
    assert_eq!(v2.repo, "https://example.org/widget");
    assert_eq!(v2.license, "MIT");
    assert_eq!(v2.licensor, "Jane Doe <jane@example.com>");
    assert_eq!(v2.timestamp, Some("1234567890".to_string()));
    assert_eq!(v2.documentation_language, Some("en".to_string()));
    assert_eq!(v2.bom, Some("bom.csv".to_string()));
    assert_eq!(v2.documentation_readiness_level, Some(Odrl::Started));
    assert_eq!(v2.technology_readiness_level, Some(Otrl::Ideation));
    assert_eq!(v2.function, Some("A widget.".to_string()));
    assert!(v2.fork_of.is_none());
    assert!(v2.part.is_empty());
}

#[test]
fn commit_time_wins_over_manifest_dates() {
    let v2 = convert(minimal_v1(), None).unwrap();
    assert_eq!(v2.timestamp, Some("2021-06-15".to_string()));
    let mut v1m = minimal_v1();
    v1m.date_updated = None;
    let v2b = convert(v1m, None).unwrap();
    assert_eq!(v2b.timestamp, Some("2020-01-01".to_string()));
}

#[test]
fn negative_commit_time_renders_signed() {
    let v2 = convert(minimal_v1(), Some(-5)).unwrap();
    assert_eq!(v2.timestamp, Some("-5".to_string()));
}

#[test]
fn missing_version_is_the_first_error() {
    let mut v1m = minimal_v1();
    v1m.version = None;
    v1m.documentation_home = None;
    match convert(v1m, None) {
        Err(Error::InsufficientData { msg }) => {
            assert_eq!(msg, "'version' is required for OKH LOSH");
        },
        other => panic!("expected an insufficient-data error, got {:?}", other.is_ok()),
    }
}

#[test]
fn missing_documentation_home_is_reported() {
    let mut v1m = minimal_v1();
    v1m.documentation_home = None;
    match convert(v1m, None) {
        Err(Error::InsufficientData { msg }) => {
            assert_eq!(msg, "OKH v1 'documentation_home' is required to convert to OKH LOSH");
        },
        _ => panic!("expected an insufficient-data error"),
    }
}

#[test]
fn missing_license_is_no_license() {
    let mut v1m = minimal_v1();
    v1m.license.hardware = None;
    assert!(matches!(convert(v1m, None), Err(Error::NoLicense)));
}

#[test]
fn documentation_license_backs_up_the_hardware_license() {
    let mut v1m = minimal_v1();
    v1m.license.hardware = None;
    v1m.license.documentation = Some("CERN-OHL-S-2.0".to_string());
    let v2 = convert(v1m, None).unwrap();
    assert_eq!(v2.license, "CERN-OHL-S-2.0");
}

#[test]
fn unknown_license_text_becomes_a_license_ref() {
    let mut v1m = minimal_v1();
    v1m.license.hardware = Some("my own terms".to_string());
    let v2 = convert(v1m, None).unwrap();
    assert_eq!(v2.license, "LicenseRef-my own terms");
}

#[test]
fn licensor_must_name_someone() {
    let mut v1m = minimal_v1();
    v1m.licensor = Some(v1::Person { name: None, affiliation: None, email: None });
    match convert(v1m, None) {
        Err(Error::InsufficientData { msg }) => {
            assert_eq!(msg, "'licensor' must define at least one of 'name' and 'email'");
        },
        _ => panic!("expected an insufficient-data error"),
    }
}

#[test]
fn licensor_name_alone_is_enough() {
    let mut v1m = minimal_v1();
    v1m.licensor = Some(v1::Person {
        name: Some("Jane".to_string()),
        affiliation: None,
        email: None,
    });
    let v2 = convert(v1m, None).unwrap();
    assert_eq!(v2.licensor, "Jane");
}

#[test]
fn licensor_email_alone_wears_brackets() {
    let mut v1m = minimal_v1();
    v1m.licensor = Some(v1::Person {
        name: None,
        affiliation: None,
        email: Some("jane@example.com".to_string()),
    });
    let v2 = convert(v1m, None).unwrap();
    assert_eq!(v2.licensor, "<jane@example.com>");
}

#[test]
fn function_text_collects_the_narrative_fields() {
    let mut v1m = minimal_v1();
    v1m.intended_use = Some(" for gadgets ".to_string());
    v1m.health_safety_notice = Some(" mind the edges ".to_string());
    let v2 = convert(v1m, None).unwrap();
    assert_eq!(v2.function, Some("A widget.\nfor gadgets\nmind the edges".to_string()));
}

#[test]
fn prototype_stage_raises_the_technology_readiness() {
    let mut v1m = minimal_v1();
    v1m.development_stage = Some("PROTOTYPE".to_string());
    let v2 = convert(v1m, None).unwrap();
    assert_eq!(v2.technology_readiness_level, Some(Otrl::Development));
    assert!(is_prototype(&Some("Prototype".to_string())));
    assert!(!is_prototype(&Some("production".to_string())));
    assert!(!is_prototype(&None));
}

#[test]
fn independent_make_raises_both_readiness_levels() {
    let mut v1m = minimal_v1();
    v1m.made_independently = true;
    let v2 = convert(v1m, None).unwrap();
    assert_eq!(v2.documentation_readiness_level, Some(Odrl::Full));
    assert_eq!(v2.technology_readiness_level, Some(Otrl::Development));
}

#[test]
fn fork_of_derives_from_the_parent_manifest_url() {
    let mut v1m = minimal_v1();
    v1m.derivative_of = Some(v1::OtherThing {
        title: None,
        manifest: Some("https://example.org/parent/okh.yml".to_string()),
        web: None,
    });
    let v2 = convert(v1m, None).unwrap();
    assert_eq!(v2.fork_of, Some("okh.yml".to_string()));
}

#[test]
fn fork_of_falls_back_to_the_web_url() {
    let mut v1m = minimal_v1();
    v1m.variant_of = Some(v1::OtherThing {
        title: None,
        manifest: None,
        web: Some("https://example.org/parent".to_string()),
    });
    let v2 = convert(v1m, None).unwrap();
    assert_eq!(v2.fork_of, Some("https://example.org/parent".to_string()));
}

#[test]
fn parent_without_any_reference_is_rejected() {
    let mut v1m = minimal_v1();
    v1m.derivative_of = Some(v1::OtherThing { title: None, manifest: None, web: None });
    match convert(v1m, None) {
        Err(Error::InsufficientData { msg }) => {
            assert_eq!(
                msg,
                "For 'derivative-of' and 'variant-of', at least one of 'web' and 'manifest' needs to be specified"
            );
        },
        _ => panic!("expected an insufficient-data error"),
    }
}

#[test]
fn sub_parts_become_v2_parts() {
    let mut v1m = minimal_v1();
    v1m.sub_parts = vec![
        v1::OtherThing {
            title: Some("arm".to_string()),
            manifest: Some("https://example.org/arm/okh.yml".to_string()),
            web: None,
        },
        v1::OtherThing {
            title: Some("base".to_string()),
            manifest: None,
            web: Some("https://example.org/base".to_string()),
        },
    ];
    let v2 = convert(v1m, None).unwrap();
    assert_eq!(v2.part.len(), 2);
    assert_eq!(v2.part[0].name, Some("arm".to_string()));
    assert_eq!(v2.part[0].manifest_file, Some("https://example.org/arm/okh.yml".to_string()));
    assert_eq!(v2.part[0].repo, Some("okh.yml".to_string()));
    assert_eq!(v2.part[1].repo, Some("https://example.org/base".to_string()));
}

#[test]
fn sub_part_without_any_reference_is_rejected() {
    let mut v1m = minimal_v1();
    v1m.sub_parts = vec![v1::OtherThing { title: None, manifest: None, web: None }];
    match convert(v1m, None) {
        Err(Error::InsufficientData { msg }) => {
            assert_eq!(
                msg,
                "For 'sub(-part)', at least one of 'web' and 'manifest' needs to be specified"
            );
        },
        _ => panic!("expected an insufficient-data error"),
    }
}

#[test]
fn standards_feed_both_standard_lists() {
    let mut v1m = minimal_v1();
    v1m.standards_used = vec![
        v1::Standard { reference: " DIN 1 ".to_string(), standard_title: " Alpha ".to_string() },
        v1::Standard { reference: String::new(), standard_title: " Beta ".to_string() },
    ];
    let v2 = convert(v1m, None).unwrap();
    assert_eq!(v2.standard, vec!["DIN 1".to_string(), "Alpha".to_string(), "Beta".to_string()]);
    assert_eq!(v2.standard_compliance, vec!["Alpha".to_string(), "Beta".to_string()]);
}

#[test]
fn software_documents_map_to_v2_software() {
    let mut v1m = minimal_v1();
    v1m.software = vec![v1::Document {
        title: Some("firmware".to_string()),
        path: Some("https://example.org/fw".to_string()),
    }];
    let v2 = convert(v1m, None).unwrap();
    assert_eq!(v2.software.len(), 1);
    assert_eq!(v2.software[0].label, Some("firmware".to_string()));
    assert_eq!(v2.software[0].release, Some("https://example.org/fw".to_string()));
}

#[test]
fn document_paths_are_collected_in_order() {
    let docs = vec![
        v1::Document { title: None, path: None },
        v1::Document { title: None, path: Some("guide.md".to_string()) },
        v1::Document { title: None, path: Some("manual.md".to_string()) },
    ];
    assert_eq!(collect_doc_paths(&docs), vec!["guide.md".to_string(), "manual.md".to_string()]);
    assert_eq!(collect_doc_path(&docs), Some("guide.md".to_string()));
    assert_eq!(collect_doc_path(&vec![]), None);
}

#[test]
fn shorten_keeps_the_last_segment() {
    assert_eq!(
        shorten_to_repo_url("https://example.org/a/b/okh.yml"),
        Some("okh.yml".to_string())
    );
    assert_eq!(shorten_to_repo_url("plain"), Some("plain".to_string()));
    assert_eq!(shorten_to_repo_url("trailing/"), Some(String::new()));
}
