use little_poem::catalogue::{first_language_tag, Catalogue};
use little_poem::locale_file::{build_resources, parse_catalogue_line, trim_spaces};
use little_poem::template::render_template;
use little_poem::locale::{LocaleData, LocaleValue};
use little_poem::species::Species;

fn args(pairs: Vec<(&str, LocaleValue)>) -> Vec<(String, LocaleValue)> {
    pairs.into_iter().map(|(k, v)| (k.to_string(), v)).collect()
}

#[test]
fn render_substitutes_named_arguments() {
    let a = args(vec![
        ("n", LocaleValue::Uint(20)),
        ("who", LocaleValue::String("Leo".to_string())),
        ("d", LocaleValue::Int(-3)),
    ]);
    assert_eq!(render_template("{who} has {n} items ({d})", &a), "Leo has 20 items (-3)");
}

#[test]
fn render_keeps_unknown_placeholders_and_lone_braces() {
    let a = args(vec![("n", LocaleValue::Uint(1))]);
    assert_eq!(render_template("{x} and {n} and { and }", &a), "{x} and 1 and { and }");
    assert_eq!(render_template("", &a), "");
    assert_eq!(render_template("{n", &a), "{n");
}

#[test]
fn render_takes_the_first_argument_of_a_name() {
    let a = args(vec![("n", LocaleValue::Uint(1)), ("n", LocaleValue::Uint(2))]);
    assert_eq!(render_template("{n}", &a), "1");
}

#[test]
fn translation_uses_the_locale_template() {
    let cat = build_resources();
    let e = Species::parse("x".repeat(21)).unwrap_err();
    assert_eq!(e.0.as_translated_message(&cat, "fr-FR"), vec!["Doit contenir au plus 20 caractères".to_string()]);
    assert_eq!(e.0.as_translated_message(&cat, "en-GB"), vec!["Must be at most 20 characters".to_string()]);
}

#[test]
fn en_us_reads_the_en_gb_messages() {
    let mut cat = Catalogue::new();
    cat.add("en-GB", "validation.mandatory", "Please fill this in");
    let e = Species::parse(String::new()).unwrap_err();
    assert_eq!(e.0.as_translated_message(&cat, "en-US"), vec!["Please fill this in".to_string()]);
    assert_eq!(cat.lookup("en-US", "validation.mandatory"), Some("Please fill this in"));
}

#[test]
fn missing_key_or_locale_falls_back_verbatim() {
    let cat = build_resources();
    let data = LocaleData { name: "validation.unknown".to_string(), args: vec![] };
    assert_eq!(data.get_translation(&cat, "fr-FR", "Original text".to_string()), "Original text");
    let e = Species::parse(String::new()).unwrap_err();
    assert_eq!(e.0.as_translated_message(&cat, "de-DE"), vec!["Cannot be empty".to_string()]);
    assert_eq!(e.0.as_translated_message(&Catalogue::new(), "fr-FR"), vec!["Cannot be empty".to_string()]);
}

#[test]
fn first_template_for_a_key_wins() {
    let mut cat = Catalogue::new();
    cat.add("fr-FR", "k", "premier");
    cat.add("fr-FR", "k", "second");
    assert_eq!(cat.len(), 2);
    assert_eq!(cat.lookup("fr-FR", "k"), Some("premier"));
    assert_eq!(cat.lookup("en-GB", "k"), None);
}

#[test]
fn bundled_catalogue_has_every_key_in_both_locales() {
    let cat = build_resources();
    assert_eq!(cat.len(), 16);
    for key in [
        "validation.mandatory",
        "validation.min_length",
        "validation.max_length",
        "validation.special_chars",
        "validation.uppercase_and_lowercase",
        "validation.uppercase",
        "validation.lowercase",
        "validation.digit",
    ] {
        assert!(cat.lookup("en-GB", key).is_some());
        assert!(cat.lookup("fr-FR", key).is_some());
    }
    assert_eq!(cat.lookup("fr-FR", "validation.mandatory"), Some("Ne peut pas être vide"));
}

#[test]
fn negotiation_takes_the_first_served_tag() {
    let cat = build_resources();
    assert_eq!(cat.negotiate("fr-FR,fr;q=0.9,en;q=0.8"), "fr-FR");
    assert_eq!(cat.negotiate(" fr-FR ;q=1"), "fr-FR");
    assert_eq!(cat.negotiate("en-US"), "en-US");
    assert_eq!(cat.negotiate("de-DE,fr-FR"), "en-GB");
    assert_eq!(cat.negotiate(""), "en-GB");
    assert_eq!(first_language_tag("en-GB, fr"), "en-GB");
    assert!(cat.serves("fr-FR"));
    assert!(!cat.serves("en-US"));
}

#[test]
fn locale_file_lines() {
    assert_eq!(
        parse_catalogue_line("  a.b =  Hello {n} "),
        Some(("a.b".to_string(), "Hello {n}".to_string()))
    );
    assert_eq!(parse_catalogue_line("k=v=w"), Some(("k".to_string(), "v=w".to_string())));
    assert_eq!(parse_catalogue_line("k ="), Some(("k".to_string(), String::new())));
    assert_eq!(parse_catalogue_line("# k = v"), None);
    assert_eq!(parse_catalogue_line(""), None);
    assert_eq!(parse_catalogue_line("no equals sign"), None);
    assert_eq!(parse_catalogue_line("   = value"), None);
    assert_eq!(trim_spaces("  x y  "), "x y");
    assert_eq!(trim_spaces("    "), "");
}

#[test]
fn load_reads_every_defining_line_in_order() {
    let mut cat = Catalogue::new();
    cat.load("de-DE", "# Kommentar\n\nvalidation.mandatory = Darf nicht leer sein\nbroken line\nvalidation.digit = Ziffer fehlt");
    assert_eq!(cat.len(), 2);
    assert_eq!(cat.lookup("de-DE", "validation.mandatory"), Some("Darf nicht leer sein"));
    assert_eq!(cat.lookup("de-DE", "validation.digit"), Some("Ziffer fehlt"));
    let e = Species::parse(String::new()).unwrap_err();
    assert_eq!(e.0.as_translated_message(&cat, "de-DE"), vec!["Darf nicht leer sein".to_string()]);
}

#[test]
fn bundled_files_render_the_length_argument() {
    let cat = build_resources();
    let e = little_poem::description::Description::parse("z".repeat(41)).unwrap_err();
    assert_eq!(e.0.as_translated_message(&cat, "en-US"), vec!["Must be at most 40 characters".to_string()]);
    assert_eq!(e.0.as_translated_message(&cat, "fr-FR"), vec!["Doit contenir au plus 40 caractères".to_string()]);
}
