use little_poem::description::{Description, DescriptionRules};
use little_poem::models::{error_flag, AnimalValidated, AnimalValidationError};
use little_poem::species::{Species, SpeciesRules};

fn fallbacks(store: &little_poem::locale::ErrorStore) -> Vec<String> {
    (0..store.len()).map(|i| store.fallback(i).to_string()).collect()
}

#[test]
fn species_accepts_a_short_name() {
    let s = Species::parse("Lion".to_string()).unwrap();
    assert_eq!(s.as_str(), "Lion");
}

#[test]
fn species_rejects_empty_with_only_the_mandatory_message() {
    let e = Species::parse(String::new()).unwrap_err();
    assert_eq!(fallbacks(&e.0), vec!["Cannot be empty".to_string()]);
    assert_eq!(e.0.token(0).key(), "validation.mandatory");
}

#[test]
fn description_rejects_empty_with_only_the_mandatory_message() {
    let e = Description::parse(String::new()).unwrap_err();
    assert_eq!(fallbacks(&e.0), vec!["Cannot be empty".to_string()]);
}

#[test]
fn empty_field_with_minimum_still_reports_only_mandatory() {
    let rules = SpeciesRules { is_mandatory: true, min_length: Some(3), max_length: Some(20) };
    let e = Species::parse_custom(String::new(), rules).unwrap_err();
    assert_eq!(fallbacks(&e.0), vec!["Cannot be empty".to_string()]);
    let rules = DescriptionRules { is_mandatory: true, min_length: Some(3), max_length: None };
    let e = Description::parse_custom(String::new(), &rules).unwrap_err();
    assert_eq!(fallbacks(&e.0), vec!["Cannot be empty".to_string()]);
}

#[test]
fn optional_empty_field_reports_the_minimum() {
    let rules = DescriptionRules { is_mandatory: false, min_length: Some(3), max_length: None };
    let e = Description::parse_custom(String::new(), &rules).unwrap_err();
    assert_eq!(fallbacks(&e.0), vec!["Must be at least 3 characters".to_string()]);
}

#[test]
fn species_of_twenty_characters_passes_and_twenty_one_fails() {
    assert!(Species::parse("a".repeat(20)).is_ok());
    let e = Species::parse("a".repeat(21)).unwrap_err();
    assert_eq!(fallbacks(&e.0), vec!["Must be at most 20 characters".to_string()]);
}

#[test]
fn species_counts_graphemes_not_code_points() {
    let s = "e\u{301}".repeat(20);
    assert_eq!(s.chars().count(), 40);
    assert!(Species::parse(s).is_ok());
    let flags = "\u{1F3F3}\u{FE0F}\u{200D}\u{1F308}".repeat(20);
    assert!(Species::parse(flags).is_ok());
}

#[test]
fn description_with_trailing_combining_mark_is_forty_graphemes() {
    let mut s = "a".repeat(40);
    s.push('\u{301}');
    assert_eq!(s.chars().count(), 41);
    let d = Description::parse(s.clone()).unwrap();
    assert_eq!(d.as_str(), s);
}

#[test]
fn description_of_forty_one_graphemes_fails() {
    let e = Description::parse("b".repeat(41)).unwrap_err();
    assert_eq!(fallbacks(&e.0), vec!["Must be at most 40 characters".to_string()]);
}

#[test]
fn parsing_a_parsed_value_gives_it_back() {
    for text in ["Lion", "Tiger", "e\u{301}l\u{e9}phant"] {
        let v = Species::parse(text.to_string()).unwrap();
        let again = Species::parse(v.as_str().to_string()).unwrap();
        assert_eq!(again, v);
        let d = Description::parse(text.to_string()).unwrap();
        assert_eq!(Description::parse(d.as_str().to_string()).unwrap(), d);
    }
}

#[test]
fn aggregate_slots_match_field_parsers() {
    let cases = vec![
        (String::new(), String::new()),
        ("Lion".to_string(), String::new()),
        (String::new(), "ok".to_string()),
        ("x".repeat(21), "fine".to_string()),
        ("Lion".to_string(), "d".repeat(41)),
    ];
    for (a, b) in cases {
        let err = AnimalValidated::parse(a.clone(), b.clone()).unwrap_err();
        assert_eq!(err.species, Species::parse(a));
        assert_eq!(err.description, Description::parse(b));
    }
}

#[test]
fn aggregate_reports_both_fields_at_once() {
    let err = AnimalValidated::parse(String::new(), String::new()).unwrap_err();
    assert_eq!(fallbacks(&err.species.unwrap_err().0), vec!["Cannot be empty".to_string()]);
    assert_eq!(fallbacks(&err.description.unwrap_err().0), vec!["Cannot be empty".to_string()]);
}

#[test]
fn aggregate_success_carries_both_values() {
    let v = AnimalValidated::parse("Lion".to_string(), "King of the Jungle".to_string()).unwrap();
    assert_eq!(v.species.as_str(), "Lion");
    assert_eq!(v.description.as_str(), "King of the Jungle");
}

#[test]
fn default_aggregate_error_is_all_success() {
    let e = AnimalValidationError::default();
    assert_eq!(e.species.unwrap().as_str(), "");
    assert_eq!(e.description.unwrap().as_str(), "");
}

#[test]
fn error_flag_raises_only_on_error() {
    let mut flag = false;
    let r: Result<i32, &str> = error_flag(&mut flag, Ok(3));
    assert_eq!(r, Ok(3));
    assert!(!flag);
    let r: Result<i32, &str> = error_flag(&mut flag, Err("bad"));
    assert_eq!(r, Err("bad"));
    assert!(flag);
    let r: Result<i32, &str> = error_flag(&mut flag, Ok(4));
    assert_eq!(r, Ok(4));
    assert!(flag);
}

#[test]
fn default_rule_profiles() {
    let s = SpeciesRules::default();
    assert!(s.is_mandatory);
    assert_eq!(s.min_length, None);
    assert_eq!(s.max_length, Some(20));
    let d = DescriptionRules::default();
    assert!(d.is_mandatory);
    assert_eq!(d.min_length, None);
    assert_eq!(d.max_length, Some(40));
}
