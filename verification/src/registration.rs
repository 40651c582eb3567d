//! The city registration service: validates a draft and turns the store's
//! reply to its insertion into the registered city.

use vstd::prelude::*;
use crate::city::{City, CityDraft, CityDraftView, CityView};
use crate::store::{StoreCommand, StoreCommandView, StoreError};

verus! {

/// Why a draft is refused.
#[derive(Clone, Copy, Debug, PartialEq, Eq)]
pub enum ValidationError {
    /// The population is below zero.
    NegativePopulation,
    /// The name is empty.
    EmptyName,
}

/// Why a registration did not yield a city.
#[derive(Clone, Copy, Debug, PartialEq, Eq)]
pub enum RegistrationError {
    /// The draft was refused; the store was not asked.
    Validation(ValidationError),
    /// The store failed, or reported an identifier that no city can bear.
    Store,
}

/// The largest identifier that a city can bear.
pub open spec fn max_id() -> int {
    i32::MAX as int
}

/// What the validation of a draft yields. A negative population is reported
/// before an empty name.
pub open spec fn validation_outcome(draft: CityDraftView) -> Result<(), ValidationError> {
    if draft.population < 0 {
        Err(ValidationError::NegativePopulation)
    } else if draft.name.len() == 0 {
        Err(ValidationError::EmptyName)
    } else {
        Ok(())
    }
}

/// What a registration of `draft` yields on a given reply of the store to the
/// insertion.
pub open spec fn registration_outcome(draft: CityDraftView, reply: Result<u64, StoreError>)
    -> Result<CityView, RegistrationError> {
    match validation_outcome(draft) {
        Err(reason) => Err(RegistrationError::Validation(reason)),
        Ok(_) => match reply {
            Err(_) => Err(RegistrationError::Store),
            Ok(id) => if 1 <= id <= max_id() {
                Ok(draft.with_id(id as int))
            } else {
                Err(RegistrationError::Store)
            },
        },
    }
}

/// The value of a registered city or of the reason why there is none.
pub open spec fn registration_result_view(outcome: Result<City, RegistrationError>) -> Result<
    CityView,
    RegistrationError,
> {
    match outcome {
        Ok(city) => Ok(city@),
        Err(error) => Err(error),
    }
}

/// The value of an insertion command or of the reason why there is none.
pub open spec fn command_result_view(outcome: Result<StoreCommand, ValidationError>) -> Result<
    StoreCommandView,
    ValidationError,
> {
    match outcome {
        Ok(command) => Ok(command@),
        Err(error) => Err(error),
    }
}

impl CityDraft {
    /// Checks the draft against the rules of the data model.
    pub fn validate(&self) -> (outcome: Result<(), ValidationError>)
        ensures
            outcome == validation_outcome(self@),
            outcome is Ok <==> self@.is_valid(),
    {
        if self.population < 0 {
            Err(ValidationError::NegativePopulation)
        } else if self.name.as_str().is_empty() {
            Err(ValidationError::EmptyName)
        } else {
            Ok(())
        }
    }
}

/// The first step of a registration: the insertion to send to the store, or the
/// refusal of the draft.
///
/// A refused draft yields no command, so nothing is asked of the store for it.
/// In particular a draft of negative population is always refused.
pub fn insert_command(draft: &CityDraft) -> (outcome: Result<StoreCommand, ValidationError>)
    ensures
        command_result_view(outcome) == match validation_outcome(draft@) {
            Ok(_) => Ok(StoreCommandView::InsertCity { draft: draft@ }),
            Err(reason) => Err(reason),
        },
        outcome is Ok <==> draft@.is_valid(),
        draft.population < 0 ==> outcome == Err::<StoreCommand, ValidationError>(
            ValidationError::NegativePopulation,
        ),
{
    match draft.validate() {
        Err(reason) => Err(reason),
        Ok(_) => Ok(
            StoreCommand::InsertCity {
                draft: CityDraft {
                    name: draft.name.clone(),
                    country_code: draft.country_code.clone(),
                    district: draft.district.clone(),
                    population: draft.population,
                },
            },
        ),
    }
}

/// The second step of a registration: decides on the store's reply to
/// [`insert_command`].
///
/// On success the city holds the fields of the draft, unchanged, and the
/// identifier that the store reported. An identifier of zero, or one beyond
/// the range of a city's identifier, counts as a failure of the store, so a
/// registered city always has an identifier other than zero. A draft that
/// validation refuses is refused here too, whatever the reply.
pub fn register(draft: CityDraft, reply: Result<u64, StoreError>) -> (outcome: Result<
    City,
    RegistrationError,
>)
    ensures
        registration_result_view(outcome) == registration_outcome(draft@, reply),
        outcome matches Ok(city) ==> city@.is_valid() && city@.is_persisted() && city@.draft()
            == draft@,
        outcome is Ok <==> draft@.is_valid() && reply is Ok && 1 <= reply->Ok_0 <= max_id(),
{
    match draft.validate() {
        Err(reason) => Err(RegistrationError::Validation(reason)),
        Ok(_) => match reply {
            Err(_) => Err(RegistrationError::Store),
            Ok(id) => {
                if 1 <= id && id <= 2147483647 {
                    Ok(
                        City {
                            id: id as i32,
                            name: draft.name,
                            country_code: draft.country_code,
                            district: draft.district,
                            population: draft.population,
                        },
                    )
                } else {
                    Err(RegistrationError::Store)
                }
            },
        },
    }
}

} // verus!
