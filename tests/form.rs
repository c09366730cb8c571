use little_poem::locale_file::build_resources;
use little_poem::form::{default_animals, AnimalForm, AnimalModel};
use little_poem::models::AnimalValidated;

#[test]
fn empty_species_shows_inline_error_and_keeps_description() {
    let cat = build_resources();
    let mut form = AnimalForm::new();
    form.set_species(String::new());
    form.set_description("ok".to_string());
    form.submit();
    assert!(!form.confirm_open);
    assert_eq!(form.species_errors(&cat, "en-GB"), vec!["Cannot be empty".to_string()]);
    assert_eq!(form.species_errors(&cat, "fr-FR"), vec!["Ne peut pas être vide".to_string()]);
    assert!(form.description_errors(&cat, "en-GB").is_empty());
    assert_eq!(form.value.description, "ok");
    assert_eq!(form.value.species, "");
    assert_eq!(form.confirm(), None);
}

#[test]
fn dialog_opens_only_after_a_successful_validation() {
    let mut form = AnimalForm::new();
    form.set_species("Lion".to_string());
    form.set_description("King of the Jungle".to_string());
    form.submit();
    assert!(form.confirm_open);
    assert_eq!(form.validated.species.as_str(), "Lion");
    form.set_description(String::new());
    form.cancel();
    assert!(!form.confirm_open);
    form.submit();
    assert!(!form.confirm_open);
    form.set_description("Big cat".to_string());
    form.submit();
    assert!(form.confirm_open);
}

#[test]
fn confirm_resets_value_and_error_and_returns_body() {
    let mut form = AnimalForm::new();
    form.set_species(String::new());
    form.set_description("Stripes".to_string());
    form.submit();
    assert!(form.error.is_some());
    form.set_species("Tiger".to_string());
    form.submit();
    assert!(form.confirm_open);
    assert!(form.error.is_some());
    let body = form.confirm().unwrap();
    assert_eq!(body.species, "Tiger");
    assert_eq!(body.description, "Stripes");
    assert!(form.error.is_none());
    assert_eq!(form.value, AnimalModel::default());
    assert!(!form.confirm_open);
}

#[test]
fn failure_keeps_previous_error_slots_replaced_not_reset() {
    let mut form = AnimalForm::new();
    form.set_species("x".repeat(21));
    form.set_description(String::new());
    form.submit();
    let value_after = form.value.clone();
    assert_eq!(value_after.species, "x".repeat(21));
    assert!(form.error.is_some());
    form.submit();
    assert_eq!(form.value, value_after);
    assert!(form.error.is_some());
}

#[test]
fn cancel_leaves_state_intact() {
    let mut form = AnimalForm::new();
    form.set_species("Lion".to_string());
    form.set_description("King".to_string());
    form.submit();
    form.cancel();
    assert!(!form.confirm_open);
    assert_eq!(form.input.species, "Lion");
    assert_eq!(form.validated.description.as_str(), "King");
    assert_eq!(form.confirm(), None);
}

#[test]
fn load_fills_the_form_unless_an_error_is_shown() {
    let mut form = AnimalForm::new();
    let animal = AnimalModel { id: 7, species: "Owl".to_string(), description: "Wise".to_string() };
    form.load(animal.clone());
    assert_eq!(form.input, animal);
    assert_eq!(form.value, animal);
    form.set_species(String::new());
    form.submit();
    form.load(animal.clone());
    assert_eq!(form.input.species, "");
}

#[test]
fn value_from_error_mixes_parsed_and_typed_text() {
    let model = AnimalModel { id: 3, species: "Lion".to_string(), description: String::new() };
    let err = model.validate().unwrap_err();
    let shown = AnimalModel::from_error(&err, &model);
    assert_eq!(shown, AnimalModel { id: 0, species: "Lion".to_string(), description: String::new() });
}

#[test]
fn default_list_holds_the_lion() {
    let v = default_animals();
    assert_eq!(v.len(), 1);
    assert_eq!(v[0], AnimalModel { id: 0, species: "Lion".to_string(), description: "King of the Jungle".to_string() });
}

#[test]
fn add_update_body_from_validated() {
    let v = AnimalValidated::parse("Lion".to_string(), "King".to_string()).unwrap();
    let body = little_poem::form::AnimalAddUpdateModel::from_validated(&v);
    assert_eq!(body.species, "Lion");
    assert_eq!(body.description, "King");
}
