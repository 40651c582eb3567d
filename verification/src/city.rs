//! The data model: cities, drafts of cities and country populations.

use vstd::prelude::*;

verus! {

/// A city as the store holds it.
#[derive(Clone, Debug, PartialEq, Eq)]
pub struct City {
    /// Assigned by the store; never zero for a city that was persisted.
    pub id: i32,
    pub name: String,
    pub country_code: String,
    pub district: String,
    pub population: i32,
}

/// The mathematical value of a [`City`].
pub struct CityView {
    pub id: int,
    pub name: Seq<char>,
    pub country_code: Seq<char>,
    pub district: Seq<char>,
    pub population: int,
}

impl View for City {
    type V = CityView;

    open spec fn view(&self) -> CityView {
        CityView {
            id: self.id as int,
            name: self.name@,
            country_code: self.country_code@,
            district: self.district@,
            population: self.population as int,
        }
    }
}

impl CityView {
    /// The name is not empty and the population is not negative.
    pub open spec fn is_valid(self) -> bool {
        self.name.len() > 0 && self.population >= 0
    }

    /// The store has assigned an identifier.
    pub open spec fn is_persisted(self) -> bool {
        self.id != 0
    }

    /// The four fields that a draft carries, without the identifier.
    pub open spec fn draft(self) -> CityDraftView {
        CityDraftView {
            name: self.name,
            country_code: self.country_code,
            district: self.district,
            population: self.population,
        }
    }
}

/// A city that has no identifier yet: the input of a registration.
#[derive(Clone, Debug, PartialEq, Eq)]
pub struct CityDraft {
    pub name: String,
    pub country_code: String,
    pub district: String,
    pub population: i32,
}

/// The mathematical value of a [`CityDraft`].
pub struct CityDraftView {
    pub name: Seq<char>,
    pub country_code: Seq<char>,
    pub district: Seq<char>,
    pub population: int,
}

impl View for CityDraft {
    type V = CityDraftView;

    open spec fn view(&self) -> CityDraftView {
        CityDraftView {
            name: self.name@,
            country_code: self.country_code@,
            district: self.district@,
            population: self.population as int,
        }
    }
}

impl CityDraftView {
    /// The name is not empty and the population is not negative.
    pub open spec fn is_valid(self) -> bool {
        self.name.len() > 0 && self.population >= 0
    }

    /// The city that this draft becomes under the identifier `id`.
    pub open spec fn with_id(self, id: int) -> CityView {
        CityView {
            id,
            name: self.name,
            country_code: self.country_code,
            district: self.district,
            population: self.population,
        }
    }
}

/// The total population of one country.
#[derive(Clone, Debug, PartialEq, Eq)]
pub struct CountryPopulation {
    pub code: String,
    pub population: i32,
}

/// The mathematical value of a [`CountryPopulation`].
pub struct CountryPopulationView {
    pub code: Seq<char>,
    pub population: int,
}

impl View for CountryPopulation {
    type V = CountryPopulationView;

    open spec fn view(&self) -> CountryPopulationView {
        CountryPopulationView { code: self.code@, population: self.population as int }
    }
}

/// Whether two texts hold the same characters in the same order.
pub fn same_text(left: &str, right: &str) -> (same: bool)
    ensures
        same == (left@ == right@),
{
    let left_owned = left.to_owned();
    let right_owned = right.to_owned();
    left_owned == right_owned
}

} // verus!
