use variant_label::annotation::{extract_attrs, Annotation, Key};
use variant_label::arms::{FieldShape, VariantDescriptor};
use variant_label::case_style::{convert_case, CaseStyle};
use variant_label::config::{default_style, is_disabled, unique_attr, ConfigError, VariantConfig};
use variant_label::resolve::{longest, resolve_label, ResolvedLabel};

fn strings(values: &[&str]) -> Vec<String> {
    values.iter().map(|v| v.to_string()).collect()
}

fn entry(namespace: &str, key: &str, values: &[&str]) -> Annotation {
    Annotation { namespace: namespace.to_string(), key: key.to_string(), values: strings(values) }
}

fn variant(ident: &str, annotations: Vec<Annotation>) -> VariantDescriptor {
    VariantDescriptor { ident: ident.to_string(), shape: FieldShape::Unit, annotations }
}

fn label(text: &str) -> ResolvedLabel {
    ResolvedLabel::Label(text.to_string())
}

#[test]
fn key_names() {
    assert_eq!(Key::Disabled.name(), "disabled");
    assert_eq!(Key::ToString.name(), "to_string");
    assert_eq!(Key::Serialize.name(), "serialize");
    assert_eq!(Key::SerializeAll.name(), "serialize_all");
}

#[test]
fn annotation_new_is_reserved_entry() {
    let a = Annotation::new(Key::Serialize, "grn");
    assert_eq!(a, entry("strum", "serialize", &["grn"]));
    assert!(a.gives(Key::Serialize));
    assert!(!a.gives(Key::ToString));
}

#[test]
fn gives_needs_namespace_and_key() {
    assert!(entry("strum", "to_string", &["x"]).gives(Key::ToString));
    assert!(!entry("serde", "to_string", &["x"]).gives(Key::ToString));
    assert!(!entry("strum", "to_strin", &["x"]).gives(Key::ToString));
    assert!(!entry("strum", "to_string", &["x"]).gives(Key::Serialize));
    assert!(!entry("to_string", "strum", &["x"]).gives(Key::ToString));
}

#[test]
fn extract_attrs_keeps_order_and_skips_others() {
    let annotations = vec![
        entry("strum", "serialize", &["a", "b"]),
        entry("serde", "serialize", &["no"]),
        entry("strum", "to_string", &["t"]),
        entry("strum", "serialize", &[]),
        entry("strum", "serialize", &["c"]),
    ];
    assert_eq!(extract_attrs(&annotations, Key::Serialize), strings(&["a", "b", "c"]));
    assert_eq!(extract_attrs(&annotations, Key::ToString), strings(&["t"]));
    assert_eq!(extract_attrs(&annotations, Key::Disabled), strings(&[]));
    assert_eq!(extract_attrs(&Vec::new(), Key::Serialize), strings(&[]));
}

#[test]
fn unique_attr_none_one_many() {
    let none = vec![entry("strum", "serialize", &["a"])];
    assert_eq!(unique_attr(&none, Key::ToString), Ok(None));
    let one = vec![entry("strum", "to_string", &["a"])];
    assert_eq!(unique_attr(&one, Key::ToString), Ok(Some("a".to_string())));
    let two = vec![entry("strum", "to_string", &["a"]), entry("strum", "to_string", &["b"])];
    assert_eq!(unique_attr(&two, Key::ToString), Err(ConfigError::Repeated(Key::ToString)));
    let two_in_one = vec![entry("strum", "to_string", &["a", "b"])];
    assert_eq!(unique_attr(&two_in_one, Key::ToString), Err(ConfigError::Repeated(Key::ToString)));
}

#[test]
fn is_disabled_reads_the_marker() {
    assert_eq!(is_disabled(&Vec::new()), Ok(false));
    assert_eq!(is_disabled(&vec![Annotation::new(Key::Disabled, "true")]), Ok(true));
    assert_eq!(is_disabled(&vec![Annotation::new(Key::Disabled, "false")]), Ok(false));
    assert_eq!(is_disabled(&vec![Annotation::new(Key::Disabled, "True")]), Ok(false));
    assert_eq!(is_disabled(&vec![entry("other", "disabled", &["true"])]), Ok(false));
    assert_eq!(
        is_disabled(&vec![
            Annotation::new(Key::Disabled, "true"),
            Annotation::new(Key::Disabled, "true"),
        ]),
        Err(ConfigError::Repeated(Key::Disabled))
    );
}

#[test]
fn style_names() {
    assert_eq!(CaseStyle::from_name("camel_case"), Some(CaseStyle::CamelCase));
    assert_eq!(CaseStyle::from_name("kebab_case"), Some(CaseStyle::KebabCase));
    assert_eq!(CaseStyle::from_name("mixed_case"), Some(CaseStyle::MixedCase));
    assert_eq!(CaseStyle::from_name("shouty_snake_case"), Some(CaseStyle::ShoutySnakeCase));
    assert_eq!(CaseStyle::from_name("shouty_snek_case"), Some(CaseStyle::ShoutySnakeCase));
    assert_eq!(CaseStyle::from_name("snake_case"), Some(CaseStyle::SnakeCase));
    assert_eq!(CaseStyle::from_name("snek_case"), Some(CaseStyle::SnakeCase));
    assert_eq!(CaseStyle::from_name("title_case"), Some(CaseStyle::TitleCase));
    assert_eq!(CaseStyle::from_name("Snake_Case"), None);
    assert_eq!(CaseStyle::from_name(""), None);
}

#[test]
fn default_style_none_one_unknown_many() {
    assert_eq!(default_style(&Vec::new()), Ok(None));
    assert_eq!(
        default_style(&vec![Annotation::new(Key::SerializeAll, "kebab_case")]),
        Ok(Some(CaseStyle::KebabCase))
    );
    assert_eq!(
        default_style(&vec![Annotation::new(Key::SerializeAll, "loud")]),
        Err(ConfigError::UnknownStyle)
    );
    assert_eq!(
        default_style(&vec![
            Annotation::new(Key::SerializeAll, "kebab_case"),
            Annotation::new(Key::SerializeAll, "snake_case"),
        ]),
        Err(ConfigError::Repeated(Key::SerializeAll))
    );
}

#[test]
fn convert_case_without_style_is_identity() {
    assert_eq!(convert_case("Red", None), "Red");
    assert_eq!(convert_case("fooBar_baz", None), "fooBar_baz");
    assert_eq!(convert_case("", None), "");
}

#[test]
fn convert_case_camel() {
    assert_eq!(convert_case("fooBar", Some(CaseStyle::CamelCase)), "FooBar");
}

#[test]
fn convert_case_kebab() {
    assert_eq!(convert_case("FooBar", Some(CaseStyle::KebabCase)), "foo-bar");
}

#[test]
fn convert_case_mixed() {
    assert_eq!(convert_case("FooBar", Some(CaseStyle::MixedCase)), "fooBar");
}

#[test]
fn convert_case_shouty_snake() {
    assert_eq!(convert_case("FooBar", Some(CaseStyle::ShoutySnakeCase)), "FOO_BAR");
    assert_eq!(convert_case("Red", Some(CaseStyle::ShoutySnakeCase)), "RED");
}

#[test]
fn convert_case_snake() {
    assert_eq!(convert_case("FooBar", Some(CaseStyle::SnakeCase)), "foo_bar");
}

#[test]
fn convert_case_title() {
    assert_eq!(convert_case("FooBar", Some(CaseStyle::TitleCase)), "Foo Bar");
}

#[test]
fn config_from_annotations() {
    let annotations = vec![
        Annotation::new(Key::Serialize, "g"),
        Annotation::new(Key::ToString, "green"),
        Annotation::new(Key::Serialize, "grn"),
        entry("doc", "hidden", &[]),
    ];
    assert_eq!(
        VariantConfig::from_annotations(&annotations),
        Ok(VariantConfig {
            disabled: false,
            explicit_name: Some("green".to_string()),
            alt_names: strings(&["g", "grn"]),
        })
    );
    assert_eq!(
        VariantConfig::from_annotations(&Vec::new()),
        Ok(VariantConfig { disabled: false, explicit_name: None, alt_names: Vec::new() })
    );
}

#[test]
fn config_rejects_repeated_keys_even_when_disabled() {
    let annotations = vec![
        Annotation::new(Key::Disabled, "true"),
        Annotation::new(Key::ToString, "a"),
        Annotation::new(Key::ToString, "b"),
    ];
    assert_eq!(
        VariantConfig::from_annotations(&annotations),
        Err(ConfigError::Repeated(Key::ToString))
    );
}

#[test]
fn config_reports_repeated_disable_first() {
    let annotations = vec![
        Annotation::new(Key::ToString, "a"),
        Annotation::new(Key::ToString, "b"),
        Annotation::new(Key::Disabled, "true"),
        Annotation::new(Key::Disabled, "false"),
    ];
    assert_eq!(
        VariantConfig::from_annotations(&annotations),
        Err(ConfigError::Repeated(Key::Disabled))
    );
}

#[test]
fn longest_picks_the_greatest_length() {
    assert_eq!(longest(&strings(&["g", "grn"])), Some(1));
    assert_eq!(longest(&strings(&["grn", "g"])), Some(0));
    assert_eq!(longest(&strings(&["a", "abcd", "ab"])), Some(1));
    assert_eq!(longest(&strings(&["only"])), Some(0));
    assert_eq!(longest(&Vec::new()), None);
}

#[test]
fn longest_takes_the_last_among_equals() {
    assert_eq!(longest(&strings(&["ab", "cd", "e", "fg"])), Some(3));
    assert_eq!(longest(&strings(&["", ""])), Some(1));
}

#[test]
fn longest_counts_bytes() {
    // three two-byte characters outweigh four one-byte characters
    assert_eq!(longest(&strings(&["\u{e9}\u{e9}\u{e9}", "abcd"])), Some(0));
    assert_eq!(longest(&strings(&["abcd", "\u{e9}\u{e9}"])), Some(1));
}

#[test]
fn disabled_comes_before_every_other_rule() {
    let config = VariantConfig {
        disabled: true,
        explicit_name: Some("name".to_string()),
        alt_names: strings(&["alt"]),
    };
    assert_eq!(resolve_label("Hidden", &config, Some(CaseStyle::SnakeCase)), ResolvedLabel::Disabled);
}

#[test]
fn explicit_name_wins_over_alternates() {
    let config = VariantConfig {
        disabled: false,
        explicit_name: Some("az".to_string()),
        alt_names: strings(&["much_longer_name", "b"]),
    };
    assert_eq!(resolve_label("Blue", &config, Some(CaseStyle::SnakeCase)), label("az"));
    let bare = VariantConfig { alt_names: Vec::new(), ..config.clone() };
    assert_eq!(
        resolve_label("Blue", &config, None),
        resolve_label("Blue", &bare, None)
    );
}

#[test]
fn longest_alternate_is_the_label() {
    let config = VariantConfig {
        disabled: false,
        explicit_name: None,
        alt_names: strings(&["g", "grn", "gr"]),
    };
    let resolved = resolve_label("Green", &config, Some(CaseStyle::ShoutySnakeCase));
    assert_eq!(resolved, label("grn"));
    match resolved {
        ResolvedLabel::Label(text) => assert_eq!(text.len(), 3),
        ResolvedLabel::Disabled => panic!("the variant is not disabled"),
    }
}

#[test]
fn identifier_is_converted_when_nothing_names_the_variant() {
    let config = VariantConfig { disabled: false, explicit_name: None, alt_names: Vec::new() };
    assert_eq!(resolve_label("DarkRed", &config, Some(CaseStyle::KebabCase)), label("dark-red"));
    assert_eq!(resolve_label("DarkRed", &config, None), label("DarkRed"));
}

#[test]
fn variant_resolve_reads_annotations() {
    let green = variant(
        "Green",
        vec![Annotation::new(Key::Serialize, "g"), Annotation::new(Key::Serialize, "grn")],
    );
    assert_eq!(green.resolve(None), Ok(label("grn")));
    let blue = variant(
        "Blue",
        vec![Annotation::new(Key::Serialize, "b"), Annotation::new(Key::ToString, "azure")],
    );
    assert_eq!(blue.resolve(Some(CaseStyle::SnakeCase)), Ok(label("azure")));
    let hidden = variant("Hidden", vec![Annotation::new(Key::Disabled, "true")]);
    assert_eq!(hidden.resolve(None), Ok(ResolvedLabel::Disabled));
    let shown = variant("Shown", vec![Annotation::new(Key::Disabled, "false")]);
    assert_eq!(shown.resolve(Some(CaseStyle::SnakeCase)), Ok(label("shown")));
    let broken = variant(
        "Broken",
        vec![Annotation::new(Key::ToString, "a"), Annotation::new(Key::ToString, "b")],
    );
    assert_eq!(broken.resolve(None), Err(ConfigError::Repeated(Key::ToString)));
}

#[test]
fn unannotated_variant_resolves_to_its_identifier() {
    for ident in ["Red", "darkBlue", "UPPER", "with_underscore", "X"] {
        assert_eq!(variant(ident, Vec::new()).resolve(None), Ok(label(ident)));
    }
}

#[test]
fn resolving_twice_gives_the_same() {
    let variants = vec![
        variant("Red", Vec::new()),
        variant("Green", vec![Annotation::new(Key::Serialize, "aa"), Annotation::new(Key::Serialize, "bb")]),
        variant("Hidden", vec![Annotation::new(Key::Disabled, "true")]),
        variant("Bad", vec![entry("strum", "disabled", &["true", "true"])]),
    ];
    for v in &variants {
        for style in [None, Some(CaseStyle::TitleCase), Some(CaseStyle::ShoutySnakeCase)] {
            assert_eq!(v.resolve(style), v.resolve(style));
        }
    }
}
