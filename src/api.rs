//! The `/animal` HTTP surface: request and response objects, the wire envelope of
//! validation errors, and which response each outcome gets.
use crate::catalogue::{strings_view, translations, Catalogue, CatalogueView};
use crate::description::{description_outcome, description_result_view, DescriptionError};
use crate::locale::TokenView;
use crate::models::{AnimalValidated, AnimalValidationError};
use crate::species::{species_outcome, species_result_view, SpeciesError};
use vstd::prelude::*;

verus! {

/// A stored animal as the API returns it.
#[derive(Debug, PartialEq)]
pub struct AnimalObject {
    pub id: i64,
    pub species: String,
    pub description: String,
}

impl Clone for AnimalObject {
    fn clone(&self) -> (r: Self)
        ensures
            r == *self,
    {
        AnimalObject {
            id: self.id,
            species: self.species.clone(),
            description: self.description.clone(),
        }
    }
}

/// The body of an add or update request.
#[derive(Debug, PartialEq)]
pub struct AnimalAddUpdateObject {
    pub species: String,
    pub description: String,
}

impl AnimalAddUpdateObject {
    /// Runs the aggregate validator on the body.
    pub fn to_validate(&self) -> (r: Result<AnimalValidated, AnimalValidationError>)
        ensures
            r is Ok <==> (species_outcome(self.species@) is Ok && description_outcome(
                self.description@,
            ) is Ok),
            r matches Ok(v) ==> v.species@ == self.species@ && v.description@
                == self.description@,
            r matches Err(e) ==> {
                &&& species_result_view(e.species) == species_outcome(self.species@)
                &&& description_result_view(e.description) == description_outcome(
                    self.description@,
                )
                &&& e.wf()
            },
    {
        AnimalValidated::parse(self.species.clone(), self.description.clone())
    }
}

/// The localised messages of one slot: none for a success, the translated tokens otherwise.
pub open spec fn slot_messages(
    slot: Result<Seq<char>, Seq<TokenView>>,
    catalogue: CatalogueView,
    locale: Seq<char>,
) -> Seq<Seq<char>> {
    match slot {
        Ok(_) => Seq::empty(),
        Err(tokens) => translations(catalogue, locale, tokens),
    }
}

/// The wire envelope of a validation failure: one array of localised messages per field.
#[derive(Debug, PartialEq)]
pub struct AnimalErrorObject {
    pub species: Vec<String>,
    pub description: Vec<String>,
}

/// Messages shown for a species slot.
pub fn species_messages(
    slot: &Result<crate::species::Species, SpeciesError>,
    catalogue: &Catalogue,
    locale: &str,
) -> (r: Vec<String>)
    ensures
        strings_view(r@) == slot_messages(species_result_view(*slot), catalogue@, locale@),
{
    match slot {
        Ok(_) => {
            let r: Vec<String> = Vec::new();
            assert(strings_view(r@) =~= Seq::<Seq<char>>::empty());
            r
        },
        Err(e) => e.0.as_translated_message(catalogue, locale),
    }
}

/// Messages shown for a description slot.
pub fn description_messages(
    slot: &Result<crate::description::Description, DescriptionError>,
    catalogue: &Catalogue,
    locale: &str,
) -> (r: Vec<String>)
    ensures
        strings_view(r@) == slot_messages(description_result_view(*slot), catalogue@, locale@),
{
    match slot {
        Ok(_) => {
            let r: Vec<String> = Vec::new();
            assert(strings_view(r@) =~= Seq::<Seq<char>>::empty());
            r
        },
        Err(e) => e.0.as_translated_message(catalogue, locale),
    }
}

impl AnimalErrorObject {
    /// The envelope of an aggregate error, translated under `locale`.
    pub fn from_error(value: &AnimalValidationError, catalogue: &Catalogue, locale: &str) -> (r:
        Self)
        ensures
            strings_view(r.species@) == slot_messages(
                species_result_view(value.species),
                catalogue@,
                locale@,
            ),
            strings_view(r.description@) == slot_messages(
                description_result_view(value.description),
                catalogue@,
                locale@,
            ),
    {
        AnimalErrorObject {
            species: species_messages(&value.species, catalogue, locale),
            description: description_messages(&value.description, catalogue, locale),
        }
    }
}

/// Why a persistence call failed.
#[derive(Debug, PartialEq, Eq, Clone, Copy)]
pub enum AnimalRepositoryError {
    QueryError,
    RowValueError,
    LockError,
    NotFoundError,
}

/// Response of `GET /animal/`.
#[derive(Debug, PartialEq)]
pub enum FetchAllAnimalsResponse {
    Listed(Vec<AnimalObject>),
    InternalServerError,
}

/// Response of `GET /animal/fetch/:id`.
#[derive(Debug, PartialEq)]
pub enum FetchAnimalByIdResponse {
    Found(AnimalObject),
    NotFound,
}

/// Response of `POST /animal/add`.
#[derive(Debug, PartialEq)]
pub enum AddAnimalResponse {
    Created,
    UnprocessableEntity(AnimalErrorObject),
    BadRequest,
}

/// Response of `PATCH /animal/update/:id`.
#[derive(Debug, PartialEq)]
pub enum UpdateAnimalResponse {
    Updated,
    UnprocessableEntity(AnimalErrorObject),
    NotFound,
    BadRequest,
}

impl FetchAllAnimalsResponse {
    pub fn status(&self) -> (r: u16)
        ensures
            r == (match self {
                FetchAllAnimalsResponse::Listed(_) => 200u16,
                FetchAllAnimalsResponse::InternalServerError => 500u16,
            }),
    {
        match self {
            FetchAllAnimalsResponse::Listed(_) => 200,
            FetchAllAnimalsResponse::InternalServerError => 500,
        }
    }
}

impl FetchAnimalByIdResponse {
    pub fn status(&self) -> (r: u16)
        ensures
            r == (match self {
                FetchAnimalByIdResponse::Found(_) => 200u16,
                FetchAnimalByIdResponse::NotFound => 404u16,
            }),
    {
        match self {
            FetchAnimalByIdResponse::Found(_) => 200,
            FetchAnimalByIdResponse::NotFound => 404,
        }
    }
}

impl AddAnimalResponse {
    pub fn status(&self) -> (r: u16)
        ensures
            r == (match self {
                AddAnimalResponse::Created => 201u16,
                AddAnimalResponse::UnprocessableEntity(_) => 422u16,
                AddAnimalResponse::BadRequest => 400u16,
            }),
    {
        match self {
            AddAnimalResponse::Created => 201,
            AddAnimalResponse::UnprocessableEntity(_) => 422,
            AddAnimalResponse::BadRequest => 400,
        }
    }
}

impl UpdateAnimalResponse {
    pub fn status(&self) -> (r: u16)
        ensures
            r == (match self {
                UpdateAnimalResponse::Updated => 200u16,
                UpdateAnimalResponse::UnprocessableEntity(_) => 422u16,
                UpdateAnimalResponse::NotFound => 404u16,
                UpdateAnimalResponse::BadRequest => 400u16,
            }),
    {
        match self {
            UpdateAnimalResponse::Updated => 200,
            UpdateAnimalResponse::UnprocessableEntity(_) => 422,
            UpdateAnimalResponse::NotFound => 404,
            UpdateAnimalResponse::BadRequest => 400,
        }
    }
}

/// Response to the listing: the rows on success, 500 when the store failed.
pub fn fetch_all_response(rows: Result<Vec<AnimalObject>, AnimalRepositoryError>) -> (r:
    FetchAllAnimalsResponse)
    ensures
        rows matches Ok(v) ==> r == FetchAllAnimalsResponse::Listed(v),
        rows is Err ==> r == FetchAllAnimalsResponse::InternalServerError,
{
    match rows {
        Ok(v) => FetchAllAnimalsResponse::Listed(v),
        Err(_) => FetchAllAnimalsResponse::InternalServerError,
    }
}

/// The first row that a lookup by id returned, or `NotFoundError` when there was none.
pub fn first_row(rows: Vec<AnimalObject>) -> (r: Result<AnimalObject, AnimalRepositoryError>)
    ensures
        rows@.len() > 0 ==> r == Ok::<AnimalObject, AnimalRepositoryError>(rows@[0]),
        rows@.len() == 0 ==> r == Err::<AnimalObject, AnimalRepositoryError>(
            AnimalRepositoryError::NotFoundError,
        ),
{
    let mut rows = rows;
    if rows.len() == 0 {
        Err(AnimalRepositoryError::NotFoundError)
    } else {
        Ok(rows.swap_remove(0))
    }
}

/// Response to a fetch by id: the animal, or 404 for any failure.
pub fn fetch_by_id_response(found: Result<AnimalObject, AnimalRepositoryError>) -> (r:
    FetchAnimalByIdResponse)
    ensures
        found matches Ok(a) ==> r == FetchAnimalByIdResponse::Found(a),
        found is Err ==> r == FetchAnimalByIdResponse::NotFound,
{
    match found {
        Ok(a) => FetchAnimalByIdResponse::Found(a),
        Err(_) => FetchAnimalByIdResponse::NotFound,
    }
}

/// Outcome of an update statement: no changed row means that no animal has the id.
pub fn update_result(changed_rows: usize) -> (r: Result<(), AnimalRepositoryError>)
    ensures
        r is Ok <==> changed_rows > 0,
        r matches Err(e) ==> e == AnimalRepositoryError::NotFoundError,
{
    if changed_rows == 0 {
        Err(AnimalRepositoryError::NotFoundError)
    } else {
        Ok(())
    }
}

/// First step of add and update: the validated animal, or the 422 envelope under `locale`.
pub fn validate_body(body: &AnimalAddUpdateObject, catalogue: &Catalogue, locale: &str) -> (r:
    Result<AnimalValidated, AnimalErrorObject>)
    ensures
        r is Ok <==> (species_outcome(body.species@) is Ok && description_outcome(
            body.description@,
        ) is Ok),
        r matches Ok(v) ==> v.species@ == body.species@ && v.description@ == body.description@,
        r matches Err(env) ==> {
            &&& strings_view(env.species@) == slot_messages(
                species_outcome(body.species@),
                catalogue@,
                locale@,
            )
            &&& strings_view(env.description@) == slot_messages(
                description_outcome(body.description@),
                catalogue@,
                locale@,
            )
        },
{
    match body.to_validate() {
        Ok(v) => Ok(v),
        Err(e) => Err(AnimalErrorObject::from_error(&e, catalogue, locale)),
    }
}

/// Response to an add: 422 with the envelope when validation failed, else 201 when the
/// store accepted the animal and 400 when it did not.
pub fn add_response(
    validation: Result<AnimalValidated, AnimalErrorObject>,
    stored: Result<(), AnimalRepositoryError>,
) -> (r: AddAnimalResponse)
    ensures
        validation matches Err(env) ==> r == AddAnimalResponse::UnprocessableEntity(env),
        validation is Ok && stored is Ok ==> r == AddAnimalResponse::Created,
        validation is Ok && stored is Err ==> r == AddAnimalResponse::BadRequest,
{
    match validation {
        Err(env) => AddAnimalResponse::UnprocessableEntity(env),
        Ok(_) => match stored {
            Ok(()) => AddAnimalResponse::Created,
            Err(_) => AddAnimalResponse::BadRequest,
        },
    }
}

/// Response to an update: 422 with the envelope when validation failed, else 200 when a
/// row changed, 404 for an unknown id and 400 for any other store failure.
pub fn update_response(
    validation: Result<AnimalValidated, AnimalErrorObject>,
    stored: Result<(), AnimalRepositoryError>,
) -> (r: UpdateAnimalResponse)
    ensures
        validation matches Err(env) ==> r == UpdateAnimalResponse::UnprocessableEntity(env),
        validation is Ok && stored is Ok ==> r == UpdateAnimalResponse::Updated,
        validation is Ok && stored == Err::<(), AnimalRepositoryError>(
            AnimalRepositoryError::NotFoundError,
        ) ==> r == UpdateAnimalResponse::NotFound,
        validation is Ok && stored is Err && stored != Err::<(), AnimalRepositoryError>(
            AnimalRepositoryError::NotFoundError,
        ) ==> r == UpdateAnimalResponse::BadRequest,
{
    match validation {
        Err(env) => UpdateAnimalResponse::UnprocessableEntity(env),
        Ok(_) => match stored {
            Ok(()) => UpdateAnimalResponse::Updated,
            Err(AnimalRepositoryError::NotFoundError) => UpdateAnimalResponse::NotFound,
            Err(_) => UpdateAnimalResponse::BadRequest,
        },
    }
}

} // verus!
