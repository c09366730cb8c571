//! The client form: editable input, the values shown after a submit, the validated animal
//! awaiting confirmation, the last aggregate error, and the confirm dialog gate.
use crate::api::{description_messages, slot_messages, species_messages, AnimalErrorObject};
use crate::catalogue::{strings_view, Catalogue};
use crate::description::{description_outcome, description_result_view};
use crate::locale::TokenView;
use crate::models::{AnimalValidated, AnimalValidationError};
use crate::species::{species_outcome, species_result_view};
use vstd::prelude::*;

verus! {

/// An animal as the client holds it; also the free text of the form's inputs.
#[derive(Debug, PartialEq)]
pub struct AnimalModel {
    pub id: i64,
    pub species: String,
    pub description: String,
}

impl Clone for AnimalModel {
    fn clone(&self) -> (r: Self)
        ensures
            r == *self,
    {
        AnimalModel {
            id: self.id,
            species: self.species.clone(),
            description: self.description.clone(),
        }
    }
}

impl Default for AnimalModel {
    fn default() -> (r: Self)
        ensures
            r.id == 0,
            r.species@ == Seq::<char>::empty(),
            r.description@ == Seq::<char>::empty(),
    {
        AnimalModel { id: 0, species: String::new(), description: String::new() }
    }
}

/// What a field shows after a failed submit: the parsed text where the slot succeeded,
/// the user's own text where it failed.
pub open spec fn shown_text(slot: Result<Seq<char>, Seq<TokenView>>, typed: Seq<char>) -> Seq<
    char,
> {
    match slot {
        Ok(s) => s,
        Err(_) => typed,
    }
}

impl AnimalModel {
    /// Runs the aggregate validator on the model's text.
    pub fn validate(&self) -> (r: Result<AnimalValidated, AnimalValidationError>)
        ensures
            r is Ok <==> (species_outcome(self.species@) is Ok && description_outcome(
                self.description@,
            ) is Ok),
            r matches Ok(v) ==> v.species@ == self.species@ && v.description@
                == self.description@,
            r matches Err(e) ==> {
                &&& species_result_view(e.species) == species_outcome(self.species@)
                &&& description_result_view(e.description) == description_outcome(
                    self.description@,
                )
                &&& e.wf()
            },
    {
        AnimalValidated::parse(self.species.clone(), self.description.clone())
    }

    /// The values to show after a failed submit of `model`.
    pub fn from_error(error: &AnimalValidationError, model: &AnimalModel) -> (r: Self)
        ensures
            r.id == 0,
            r.species@ == shown_text(species_result_view(error.species), model.species@),
            r.description@ == shown_text(
                description_result_view(error.description),
                model.description@,
            ),
    {
        let species = match &error.species {
            Ok(s) => s.as_str().to_string(),
            Err(_) => model.species.clone(),
        };
        let description = match &error.description {
            Ok(d) => d.as_str().to_string(),
            Err(_) => model.description.clone(),
        };
        AnimalModel { id: 0, species, description }
    }
}

/// The body the client sends to add or update an animal.
#[derive(Debug, PartialEq)]
pub struct AnimalAddUpdateModel {
    pub species: String,
    pub description: String,
}

impl AnimalAddUpdateModel {
    pub fn from_validated(value: &AnimalValidated) -> (r: Self)
        ensures
            r.species@ == value.species@,
            r.description@ == value.description@,
    {
        AnimalAddUpdateModel {
            species: value.species.as_str().to_string(),
            description: value.description.as_str().to_string(),
        }
    }
}

/// The list shown before the first fetch completes.
pub fn default_animals() -> (r: Vec<AnimalModel>)
    ensures
        r@.len() == 1,
        r@[0].id == 0,
        r@[0].species@ == "Lion"@,
        r@[0].description@ == "King of the Jungle"@,
{
    let mut v: Vec<AnimalModel> = Vec::new();
    v.push(
        AnimalModel {
            id: 0,
            species: "Lion".to_string(),
            description: "King of the Jungle".to_string(),
        },
    );
    v
}

/// Mathematical value of the form's error: the two slots, if there is an error.
pub open spec fn error_view(e: Option<AnimalValidationError>) -> Option<
    (Result<Seq<char>, Seq<TokenView>>, Result<Seq<char>, Seq<TokenView>>),
> {
    match e {
        Some(e) => Some((species_result_view(e.species), description_result_view(e.description))),
        None => None,
    }
}

/// The state of an add or edit form.
pub struct AnimalForm {
    pub input: AnimalModel,
    pub value: AnimalModel,
    pub validated: AnimalValidated,
    pub error: Option<AnimalValidationError>,
    pub confirm_open: bool,
}

impl AnimalForm {
    pub fn new() -> (r: Self)
        ensures
            r.input.species@ == Seq::<char>::empty(),
            r.input.description@ == Seq::<char>::empty(),
            r.value.species@ == Seq::<char>::empty(),
            r.value.description@ == Seq::<char>::empty(),
            r.error is None,
            !r.confirm_open,
    {
        AnimalForm {
            input: AnimalModel::default(),
            value: AnimalModel::default(),
            validated: AnimalValidated::default(),
            error: None,
            confirm_open: false,
        }
    }

    /// The user edited the species input.
    pub fn set_species(&mut self, species: String)
        ensures
            final(self).input.species@ == species@,
            final(self).input.description@ == old(self).input.description@,
            final(self).input.id == old(self).input.id,
            final(self).value == old(self).value,
            final(self).validated == old(self).validated,
            final(self).error == old(self).error,
            final(self).confirm_open == old(self).confirm_open,
    {
        self.input.species = species;
    }

    /// The user edited the description input.
    pub fn set_description(&mut self, description: String)
        ensures
            final(self).input.description@ == description@,
            final(self).input.species@ == old(self).input.species@,
            final(self).input.id == old(self).input.id,
            final(self).value == old(self).value,
            final(self).validated == old(self).validated,
            final(self).error == old(self).error,
            final(self).confirm_open == old(self).confirm_open,
    {
        self.input.description = description;
    }

    /// An animal fetched for editing fills input and shown values, unless an error is shown.
    pub fn load(&mut self, animal: AnimalModel)
        ensures
            old(self).error is None ==> final(self).input == animal && final(self).value
                == animal,
            old(self).error is Some ==> final(self).input == old(self).input && final(self).value
                == old(self).value,
            final(self).validated == old(self).validated,
            final(self).error == old(self).error,
            final(self).confirm_open == old(self).confirm_open,
    {
        if self.error.is_none() {
            self.input = animal.clone();
            self.value = animal;
        }
    }

    /// Submit: validate the input; open the confirm dialog exactly when it passed, and on
    /// failure keep the error and show each field's text.
    pub fn submit(&mut self)
        ensures
            final(self).input == old(self).input,
            final(self).confirm_open == (species_outcome(old(self).input.species@) is Ok
                && description_outcome(old(self).input.description@) is Ok),
            final(self).confirm_open ==> {
                &&& final(self).validated.species@ == old(self).input.species@
                &&& final(self).validated.description@ == old(self).input.description@
                &&& final(self).value == old(self).value
                &&& final(self).error == old(self).error
            },
            !final(self).confirm_open ==> {
                &&& error_view(final(self).error) == Some(
                    (
                        species_outcome(old(self).input.species@),
                        description_outcome(old(self).input.description@),
                    ),
                )
                &&& final(self).value.id == 0
                &&& final(self).value.species@ == old(self).input.species@
                &&& final(self).value.description@ == old(self).input.description@
                &&& final(self).validated == old(self).validated
            },
    {
        match self.input.validate() {
            Ok(v) => {
                self.validated = v;
                self.confirm_open = true;
            },
            Err(e) => {
                self.value = AnimalModel::from_error(&e, &self.input);
                self.error = Some(e);
                self.confirm_open = false;
            },
        }
    }

    /// Confirm: close the dialog, clear shown values and error, and hand back the body to
    /// send. Nothing happens when the dialog is not open.
    pub fn confirm(&mut self) -> (r: Option<AnimalAddUpdateModel>)
        ensures
            old(self).confirm_open ==> {
                &&& r matches Some(m) && m.species@ == old(self).validated.species@
                    && m.description@ == old(self).validated.description@
                &&& !final(self).confirm_open
                &&& final(self).error is None
                &&& final(self).value.id == 0
                &&& final(self).value.species@ == Seq::<char>::empty()
                &&& final(self).value.description@ == Seq::<char>::empty()
                &&& final(self).input == old(self).input
            },
            !old(self).confirm_open ==> r is None && *final(self) == *old(self),
    {
        if !self.confirm_open {
            return None;
        }
        let body = AnimalAddUpdateModel::from_validated(&self.validated);
        self.value = AnimalModel::default();
        self.error = None;
        self.confirm_open = false;
        Some(body)
    }

    /// Cancel: close the dialog and leave everything else as it is.
    pub fn cancel(&mut self)
        ensures
            !final(self).confirm_open,
            final(self).input == old(self).input,
            final(self).value == old(self).value,
            final(self).validated == old(self).validated,
            final(self).error == old(self).error,
    {
        self.confirm_open = false;
    }

    /// The messages shown under the species input, translated under `locale`.
    pub fn species_errors(&self, catalogue: &Catalogue, locale: &str) -> (r: Vec<String>)
        ensures
            self.error matches Some(e) ==> strings_view(r@) == slot_messages(
                species_result_view(e.species),
                catalogue@,
                locale@,
            ),
            self.error is None ==> r@.len() == 0,
    {
        match &self.error {
            Some(e) => species_messages(&e.species, catalogue, locale),
            None => Vec::new(),
        }
    }

    /// The messages shown under the description input, translated under `locale`.
    pub fn description_errors(&self, catalogue: &Catalogue, locale: &str) -> (r: Vec<String>)
        ensures
            self.error matches Some(e) ==> strings_view(r@) == slot_messages(
                description_result_view(e.description),
                catalogue@,
                locale@,
            ),
            self.error is None ==> r@.len() == 0,
    {
        match &self.error {
            Some(e) => description_messages(&e.description, catalogue, locale),
            None => Vec::new(),
        }
    }
}

/// The envelope a server builds from an aggregate error under a locale carries, field by
/// field and in order, the very messages a client form shows when it holds that error
/// under that locale.
pub proof fn lemma_envelope_matches_form(
    e: AnimalValidationError,
    envelope: AnimalErrorObject,
    form: AnimalForm,
    catalogue: Catalogue,
    locale: Seq<char>,
)
    requires
        strings_view(envelope.species@) == slot_messages(
            species_result_view(e.species),
            catalogue@,
            locale,
        ),
        strings_view(envelope.description@) == slot_messages(
            description_result_view(e.description),
            catalogue@,
            locale,
        ),
        error_view(form.error) == error_view(Some(e)),
    ensures
        form.error matches Some(fe) && strings_view(envelope.species@) == slot_messages(
            species_result_view(fe.species),
            catalogue@,
            locale,
        ) && strings_view(envelope.description@) == slot_messages(
            description_result_view(fe.description),
            catalogue@,
            locale,
        ),
{
}

} // verus!
