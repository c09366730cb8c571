//! The aggregate validator: both fields parsed independently, each slot reported on its own.
use crate::description::{
    description_outcome, description_result_view, Description, DescriptionError,
};
use crate::locale::TokenView;
use crate::species::{species_outcome, species_result_view, Species, SpeciesError};
use crate::string_rules::mandatory_message;
use vstd::prelude::*;

verus! {

/// Passes `res` through unchanged and raises `flag` when it is an error.
pub fn error_flag<T, E>(flag: &mut bool, res: Result<T, E>) -> (r: Result<T, E>)
    ensures
        r == res,
        *final(flag) == (*old(flag) || res is Err),
{
    if res.is_err() {
        *flag = true;
    }
    res
}

/// One slot per field, each carrying the parsed value or the field's error.
#[derive(Debug, PartialEq)]
pub struct AnimalValidationError {
    pub species: Result<Species, SpeciesError>,
    pub description: Result<Description, DescriptionError>,
}

impl AnimalValidationError {
    /// Some slot is an error, and every error slot holds at least one token.
    pub open spec fn wf(&self) -> bool {
        &&& (self.species is Err || self.description is Err)
        &&& self.species matches Err(e) ==> e.wf()
        &&& self.description matches Err(e) ==> e.wf()
    }
}

impl Clone for AnimalValidationError {
    fn clone(&self) -> (r: Self)
        ensures
            species_result_view(r.species) == species_result_view(self.species),
            description_result_view(r.description) == description_result_view(self.description),
    {
        let species = match &self.species {
            Ok(v) => Ok(v.clone()),
            Err(e) => Err(e.clone()),
        };
        let description = match &self.description {
            Ok(v) => Ok(v.clone()),
            Err(e) => Err(e.clone()),
        };
        AnimalValidationError { species, description }
    }
}

impl Default for AnimalValidationError {
    /// Every slot a success holding empty text: the "no errors yet" state.
    fn default() -> (r: Self)
        ensures
            species_result_view(r.species) == Ok::<Seq<char>, Seq<TokenView>>(Seq::empty()),
            description_result_view(r.description) == Ok::<Seq<char>, Seq<TokenView>>(
                Seq::empty(),
            ),
    {
        AnimalValidationError { species: Ok(Species::default()), description: Ok(Description::default()) }
    }
}

/// An animal whose fields all passed their rules.
#[derive(Debug, PartialEq)]
pub struct AnimalValidated {
    pub species: Species,
    pub description: Description,
}

impl Clone for AnimalValidated {
    fn clone(&self) -> (r: Self)
        ensures
            r.species@ == self.species@,
            r.description@ == self.description@,
    {
        AnimalValidated { species: self.species.clone(), description: self.description.clone() }
    }
}

impl Default for AnimalValidated {
    fn default() -> (r: Self)
        ensures
            r.species@ == Seq::<char>::empty(),
            r.description@ == Seq::<char>::empty(),
    {
        AnimalValidated { species: Species::default(), description: Description::default() }
    }
}

impl AnimalValidated {
    /// Parses both fields, never stopping at the first failure.
    pub fn parse(species: String, description: String) -> (r: Result<Self, AnimalValidationError>)
        ensures
            r is Ok <==> (species_outcome(species@) is Ok && description_outcome(description@) is Ok),
            r matches Ok(v) ==> v.species@ == species@ && v.description@ == description@,
            r matches Err(e) ==> {
                &&& species_result_view(e.species) == species_outcome(species@)
                &&& description_result_view(e.description) == description_outcome(description@)
                &&& e.wf()
            },
    {
        let mut flag = false;
        let species = error_flag(&mut flag, Species::parse(species));
        let description = error_flag(&mut flag, Description::parse(description));
        if flag {
            return Err(AnimalValidationError { species, description });
        }
        match (species, description) {
            (Ok(species), Ok(description)) => Ok(AnimalValidated { species, description }),
            (species, description) => Err(AnimalValidationError { species, description }),
        }
    }
}

/// An empty species or description reports exactly the mandatory message, never a length
/// message as well.
pub proof fn lemma_empty_field_reports_only_mandatory()
    ensures
        species_outcome(Seq::empty()) == Err::<Seq<char>, Seq<TokenView>>(seq![mandatory_message()]),
        description_outcome(Seq::empty()) == Err::<Seq<char>, Seq<TokenView>>(
            seq![mandatory_message()],
        ),
{
}

} // verus!
