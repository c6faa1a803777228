//! The manifest data model: validated identifier types, builders, and
//! the small helper types around them.

use okh_tool::formats::generated::CpcIdVariant0;
use okh_tool::formats::generated::Date;
use okh_tool::formats::generated::Doi;
use okh_tool::formats::generated::ImageObject;
use okh_tool::formats::generated::ImageObjectSlotsItem;
use okh_tool::formats::generated::ImageObjectSlotsItemVariant1;
use okh_tool::formats::generated::ImageObjectTagsItem;
use okh_tool::formats::generated::ImageObjectTagsItemVariant1;
use okh_tool::formats::generated::LangText;
use okh_tool::formats::generated::Language;
use okh_tool::formats::generated::ManifestDocumentationReadinessLevel;
use okh_tool::formats::generated::ManifestSchema;
use okh_tool::formats::generated::ManifestTechnologyReadinessLevel;
use okh_tool::formats::generated::Person;
use okh_tool::formats::generated::RdfNamespace;
use okh_tool::formats::generated::RelPath;
use okh_tool::formats::generated::RelPathOrWebUrl;
use okh_tool::formats::generated::StringMulti;
use okh_tool::formats::generated::WebUrl;
use okh_tool::formats::generated::to_string_multi;
use okh_tool::formats::v1;
use okh_tool::formats::v2;

#[test]
fn cpc_identifiers_are_pattern_checked() {
    assert!(CpcIdVariant0::from_str("A01B33/00").is_ok());
    assert!(CpcIdVariant0::from_str("H02J 1/123456").is_ok());
    assert!(CpcIdVariant0::from_str("not a class").is_err());
    assert!(CpcIdVariant0::from_str("").is_err());
    assert_eq!(CpcIdVariant0::from_str("A41G").unwrap().text(), "A41G");
}

#[test]
fn dois_are_pattern_checked() {
    assert!(Doi::from_str("10.1080/10509585.2015.1092083").is_ok());
    assert!(Doi::from_str("https://doi.org/10.1080/10509585.2015.1092083").is_ok());
    assert!(Doi::from_str("DOI: 10.1080/10509585.2015.1092083").is_ok());
    assert!(Doi::from_str("example.org/not-a-doi").is_err());
}

#[test]
fn language_tags_are_pattern_checked() {
    assert!(Language::from_str("en").is_ok());
    assert!(Language::from_str("en-GB").is_ok());
    assert!(Language::from_str("zh-min-nan").is_ok());
    assert!(Language::from_str("not_a_tag!").is_err());
}

#[test]
fn image_slots_round_trip() {
    for (name, variant) in [
        ("icon-main", ImageObjectSlotsItemVariant1::IconMain),
        ("model-from-above", ImageObjectSlotsItemVariant1::ModelFromAbove),
        ("symbol", ImageObjectSlotsItemVariant1::Symbol),
    ] {
        let parsed = ImageObjectSlotsItemVariant1::from_str(name).unwrap();
        assert_eq!(parsed.to_str(), name);
        assert_eq!(variant.to_str(), name);
    }
    assert!(ImageObjectSlotsItemVariant1::from_str("sideways").is_err());
}

#[test]
fn custom_slots_take_the_custom_shape() {
    match ImageObjectSlotsItem::from_str("c_rear-view").unwrap() {
        ImageObjectSlotsItem::Variant0(custom) => assert_eq!(custom.text(), "c_rear-view"),
        ImageObjectSlotsItem::Variant1(_) => panic!("expected a custom slot"),
    }
    match ImageObjectSlotsItem::from_str("logo").unwrap() {
        ImageObjectSlotsItem::Variant1(known) => assert_eq!(known.to_str(), "logo"),
        ImageObjectSlotsItem::Variant0(_) => panic!("expected a well-known slot"),
    }
    assert!(ImageObjectSlotsItem::from_str("C_UPPER").is_err());
}

#[test]
fn image_tags_round_trip() {
    for name in ["art", "assembly", "bw", "color", "diagram", "drawing", "gray", "icon", "logo",
        "model", "photo", "screenshot"] {
        assert_eq!(ImageObjectTagsItemVariant1::from_str(name).unwrap().to_str(), name);
    }
    assert!(ImageObjectTagsItemVariant1::from_str("sepia").is_err());
    match ImageObjectTagsItem::from_str("c_x-ray").unwrap() {
        ImageObjectTagsItem::Variant0(custom) => assert_eq!(custom.text(), "c_x-ray"),
        ImageObjectTagsItem::Variant1(_) => panic!("expected a custom tag"),
    }
}

#[test]
fn readiness_levels_round_trip() {
    assert_eq!(
        ManifestDocumentationReadinessLevel::from_str("ODRL-3*").unwrap().to_str(),
        "ODRL-3*"
    );
    assert!(ManifestDocumentationReadinessLevel::from_str("ODRL-9").is_err());
    assert_eq!(ManifestTechnologyReadinessLevel::from_str("OTRL-6").unwrap().to_str(), "OTRL-6");
    assert!(ManifestTechnologyReadinessLevel::from_str("OTRL-0").is_err());
}

#[test]
fn schema_identifiers_round_trip() {
    assert_eq!(
        ManifestSchema::from_str("https://w3id.org/oseg/schema/okh.json").unwrap().to_str(),
        "https://w3id.org/oseg/schema/okh.json"
    );
    assert!(ManifestSchema::from_str("https://example.org/else.json").is_err());
}

#[test]
fn dates_follow_the_calendar() {
    assert!(Date::new(2000, 2, 29).is_some());
    assert!(Date::new(1900, 2, 29).is_none());
    assert!(Date::new(2024, 2, 29).is_some());
    assert!(Date::new(2023, 2, 29).is_none());
    assert!(Date::new(2023, 4, 31).is_none());
    assert!(Date::new(2023, 12, 31).is_some());
    assert!(Date::new(2023, 13, 1).is_none());
    assert!(Date::new(2023, 0, 1).is_none());
    assert!(Date::new(2023, 1, 0).is_none());
    let d = Date::new(1984, 10, 1).unwrap();
    assert_eq!((d.year, d.month, d.day), (1984, 10, 1));
}

#[test]
fn string_multi_folds_by_count() {
    assert!(to_string_multi(vec![]).is_none());
    match to_string_multi(vec!["one".to_string()]).unwrap() {
        StringMulti::Variant0(s) => assert_eq!(s, "one"),
        StringMulti::Variant1(_) => panic!("expected a single text"),
    }
    match to_string_multi(vec!["one".to_string(), "two".to_string()]).unwrap() {
        StringMulti::Variant1(v) => assert_eq!(v, vec!["one".to_string(), "two".to_string()]),
        StringMulti::Variant0(_) => panic!("expected a list"),
    }
}

#[test]
fn person_builder_collects_fields() {
    let person = Person::builder()
        .name(Some("Jane Doe".to_string()))
        .email(Some(okh_tool::formats::generated::Email("jane@example.com".to_string())))
        .build()
        .unwrap();
    assert_eq!(person.name, Some("Jane Doe".to_string()));
    assert_eq!(person.email.unwrap().0, "jane@example.com");
    assert!(person.url.is_none());
}

#[test]
fn lang_text_builder_requires_both_fields() {
    assert!(LangText::builder().build().is_err());
    assert!(LangText::builder().text("hello".to_string()).build().is_err());
    let lt = LangText::builder()
        .language(Language::from_str("en").unwrap())
        .text("hello".to_string())
        .build()
        .unwrap();
    assert_eq!(lt.text, "hello");
    assert_eq!(lt.language.text(), "en");
}

#[test]
fn image_object_builder_requires_a_location() {
    assert!(ImageObject::builder().build().is_err());
    let location = RelPathOrWebUrl {
        subtype_0: None,
        subtype_1: Some(RelPath("img/front.png".to_string())),
    };
    let image = ImageObject::builder().location(location).build().unwrap();
    assert!(image.depicts.is_none());
    assert!(image.slots.is_empty());
    assert_eq!(image.location.subtype_1.unwrap().0, "img/front.png");
}

#[test]
fn rdf_namespace_builder_requires_the_namespace() {
    assert!(RdfNamespace::builder().build().is_err());
    let ns = RdfNamespace::builder()
        .namespace("https://example.org/ns#".to_string())
        .prefix(Some("ex".to_string()))
        .build()
        .unwrap();
    assert_eq!(ns.namespace, "https://example.org/ns#");
    assert_eq!(ns.prefix, Some("ex".to_string()));
}

#[test]
fn rel_path_or_web_url_builder_sets_alternatives() {
    let loc = okh_tool::formats::generated::RelPathOrWebUrl::builder()
        .subtype_0(Some(WebUrl("https://example.org".to_string())))
        .build()
        .unwrap();
    assert_eq!(loc.subtype_0.unwrap().0, "https://example.org");
    assert!(loc.subtype_1.is_none());
}

#[test]
fn v1_main_url_prefers_the_project_link() {
    let mut okh = v1::Okh {
        title: String::new(),
        description: String::new(),
        intended_use: None,
        keywords: vec![],
        project_link: Some("https://example.org/p".to_string()),
        image: None,
        made: false,
        made_independently: false,
        license: v1::License { hardware: None, documentation: None, software: None },
        licensor: None,
        okh_manifest_version: None,
        date_created: None,
        date_updated: None,
        version: None,
        development_stage: None,
        documentation_home: Some("https://example.org/d".to_string()),
        archive_download: None,
        documentation_language: None,
        bom: None,
        making_instructions: vec![],
        operating_instructions: vec![],
        software: vec![],
        health_safety_notice: None,
        standards_used: vec![],
        derivative_of: None,
        variant_of: None,
        sub_parts: vec![],
    };
    assert_eq!(okh.main_url(), Some(&"https://example.org/p".to_string()));
    okh.project_link = None;
    assert_eq!(okh.main_url(), Some(&"https://example.org/d".to_string()));
    okh.documentation_home = None;
    assert_eq!(okh.main_url(), None);
    assert!(!okh.has_license());
    okh.license.software = Some("MIT".to_string());
    assert!(okh.has_license());
}

#[test]
fn v2_markers_are_fixed() {
    assert_eq!(v2::okhv(), "OKH-LOSHv1.0");
    assert_eq!(v2::manifest_file_name(), "okh.toml");
    assert_eq!(v1::default_okh_manifest_version(), Some("1.0.0".to_string()));
}
