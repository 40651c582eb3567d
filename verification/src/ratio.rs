//! The population ratio calculator: a city's share of its country's population.

use vstd::prelude::*;
use crate::city::{City, CityView, CountryPopulation, CountryPopulationView};
use crate::store::{StoreCommand, StoreCommandView, StoreError};

verus! {

/// A city's population over its country's. The share in percent is
/// `city_population / country_population * 100`; the divisor is never zero.
#[derive(Clone, Copy, Debug, PartialEq, Eq)]
pub struct Ratio {
    pub city_population: i32,
    pub country_population: i32,
}

/// The mathematical value of a [`Ratio`].
pub struct RatioView {
    pub city_population: int,
    pub country_population: int,
}

impl View for Ratio {
    type V = RatioView;

    open spec fn view(&self) -> RatioView {
        RatioView {
            city_population: self.city_population as int,
            country_population: self.country_population as int,
        }
    }
}

impl RatioView {
    /// The divisor is not zero, so the share is a number.
    pub open spec fn is_defined(self) -> bool {
        self.country_population != 0
    }
}

/// Why no ratio could be given.
#[derive(Clone, Copy, Debug, PartialEq, Eq)]
pub enum RatioError {
    /// The store holds no country of the city's country code.
    CountryNotFound,
    /// The country's population is zero.
    DivisionUndefined,
    /// The store failed.
    Store,
}

/// The value of what the store answers to a search for a country's population.
pub open spec fn population_reply_view(reply: Result<Option<CountryPopulation>, StoreError>)
    -> Result<Option<CountryPopulationView>, StoreError> {
    match reply {
        Ok(Some(country)) => Ok(Some(country@)),
        Ok(None) => Ok(None),
        Err(error) => Err(error),
    }
}

/// The value of a ratio or of the reason why there is none.
pub open spec fn ratio_result_view(outcome: Result<Ratio, RatioError>) -> Result<
    RatioView,
    RatioError,
> {
    match outcome {
        Ok(ratio) => Ok(ratio@),
        Err(error) => Err(error),
    }
}

/// The ratio of a city of `city_population` inhabitants on a given reply of the
/// store about its country.
pub open spec fn ratio_outcome(
    city_population: int,
    reply: Result<Option<CountryPopulationView>, StoreError>,
) -> Result<RatioView, RatioError> {
    match reply {
        Err(_) => Err(RatioError::Store),
        Ok(None) => Err(RatioError::CountryNotFound),
        Ok(Some(country)) => if country.population == 0 {
            Err(RatioError::DivisionUndefined)
        } else {
            Ok(RatioView { city_population, country_population: country.population })
        },
    }
}

/// The command that asks the store for the population of the city's country.
pub fn population_command(city: &City) -> (command: StoreCommand)
    ensures
        command@ == (StoreCommandView::FindCountryPopulation { code: city.country_code@ }),
{
    StoreCommand::FindCountryPopulation { code: city.country_code.clone() }
}

/// Decides the ratio of `city` on the store's reply to [`population_command`].
///
/// A country of population zero gives [`RatioError::DivisionUndefined`] and
/// never a ratio; a missing country gives [`RatioError::CountryNotFound`]; a
/// failure of the store gives [`RatioError::Store`]. Otherwise the ratio holds
/// the two populations as they were given.
pub fn compute_ratio(city: &City, reply: Result<Option<CountryPopulation>, StoreError>) -> (outcome:
    Result<Ratio, RatioError>)
    ensures
        ratio_result_view(outcome) == ratio_outcome(
            city.population as int,
            population_reply_view(reply),
        ),
        outcome matches Ok(ratio) ==> ratio@.is_defined(),
        reply matches Ok(Some(country)) && country.population == 0 ==> outcome == Err::<
            Ratio,
            RatioError,
        >(RatioError::DivisionUndefined),
{
    match reply {
        Err(_) => Err(RatioError::Store),
        Ok(None) => Err(RatioError::CountryNotFound),
        Ok(Some(country)) => {
            if country.population == 0 {
                Err(RatioError::DivisionUndefined)
            } else {
                Ok(
                    Ratio {
                        city_population: city.population,
                        country_population: country.population,
                    },
                )
            }
        },
    }
}

/// The outcome of a ratio depends on the two populations alone: two cities of
/// the same population, and two replies that name the same country population,
/// give the same outcome, whatever else differs between them.
pub proof fn lemma_ratio_depends_on_populations_only(
    first_city: CityView,
    second_city: CityView,
    first_country: CountryPopulationView,
    second_country: CountryPopulationView,
)
    requires
        first_city.population == second_city.population,
        first_country.population == second_country.population,
    ensures
        ratio_outcome(first_city.population, Ok(Some(first_country))) == ratio_outcome(
            second_city.population,
            Ok(Some(second_country)),
        ),
{
}

} // verus!
