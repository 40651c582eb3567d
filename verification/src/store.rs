//! What the services ask of the backing store, and what it answers.
//!
//! The store itself is reached by the caller. The services only describe each
//! request as a [`StoreCommand`] and decide on the reply handed back to them.

use vstd::prelude::*;
use crate::city::{CityDraft, CityDraftView, CityView, City};

verus! {

/// The store could not be reached or could not run a command. It carries no
/// detail, so that none can leak into a response.
#[derive(Clone, Copy, Debug, PartialEq, Eq)]
pub struct StoreError;

/// One request to the store.
#[derive(Clone, Debug, PartialEq, Eq)]
pub enum StoreCommand {
    /// The city of this name, if there is one.
    FindCityByName { name: String },
    /// The total population of the country of this code, if there is one.
    FindCountryPopulation { code: String },
    /// A new row for this draft; the store assigns the identifier.
    InsertCity { draft: CityDraft },
}

/// The mathematical value of a [`StoreCommand`].
pub enum StoreCommandView {
    FindCityByName { name: Seq<char> },
    FindCountryPopulation { code: Seq<char> },
    InsertCity { draft: CityDraftView },
}

/// One value bound to a placeholder of a statement.
#[derive(Clone, Debug, PartialEq, Eq)]
pub enum Parameter {
    Text(String),
    Integer(i32),
}

/// The mathematical value of a [`Parameter`].
pub enum ParameterView {
    Text(Seq<char>),
    Integer(int),
}

impl View for Parameter {
    type V = ParameterView;

    open spec fn view(&self) -> ParameterView {
        match self {
            Parameter::Text(text) => ParameterView::Text(text@),
            Parameter::Integer(number) => ParameterView::Integer(*number as int),
        }
    }
}

impl View for StoreCommand {
    type V = StoreCommandView;

    open spec fn view(&self) -> StoreCommandView {
        match self {
            StoreCommand::FindCityByName { name } => StoreCommandView::FindCityByName {
                name: name@,
            },
            StoreCommand::FindCountryPopulation { code } => StoreCommandView::FindCountryPopulation {
                code: code@,
            },
            StoreCommand::InsertCity { draft } => StoreCommandView::InsertCity { draft: draft@ },
        }
    }
}

impl StoreCommandView {
    /// The statement that carries out this command, with `?` for each parameter.
    pub open spec fn statement(self) -> Seq<char> {
        match self {
            StoreCommandView::FindCityByName { .. } => "SELECT * FROM city WHERE Name = ?"@,
            StoreCommandView::FindCountryPopulation { .. } =>
                "SELECT Population FROM country WHERE Code = ?"@,
            StoreCommandView::InsertCity { .. } =>
                "INSERT INTO city (Name, CountryCode, District, Population) VALUES (?, ?, ?, ?)"@,
        }
    }

    /// The values for the placeholders of the statement, in their order.
    pub open spec fn parameters(self) -> Seq<ParameterView> {
        match self {
            StoreCommandView::FindCityByName { name } => seq![ParameterView::Text(name)],
            StoreCommandView::FindCountryPopulation { code } => seq![ParameterView::Text(code)],
            StoreCommandView::InsertCity { draft } => seq![
                ParameterView::Text(draft.name),
                ParameterView::Text(draft.country_code),
                ParameterView::Text(draft.district),
                ParameterView::Integer(draft.population),
            ],
        }
    }

    /// The row that the store holds once it has carried out an insertion and
    /// assigned `id` to it.
    pub open spec fn inserted_row(self, id: int) -> CityView
        recommends
            self is InsertCity,
    {
        self->draft.with_id(id)
    }
}

/// The values of a list of parameters.
pub open spec fn parameter_views(parameters: Seq<Parameter>) -> Seq<ParameterView> {
    parameters.map_values(|parameter: Parameter| parameter@)
}

impl StoreCommand {
    /// The statement that carries out this command.
    pub fn statement(&self) -> (sql: &'static str)
        ensures
            sql@ == self@.statement(),
    {
        match self {
            StoreCommand::FindCityByName { .. } => "SELECT * FROM city WHERE Name = ?",
            StoreCommand::FindCountryPopulation { .. } =>
                "SELECT Population FROM country WHERE Code = ?",
            StoreCommand::InsertCity { .. } =>
                "INSERT INTO city (Name, CountryCode, District, Population) VALUES (?, ?, ?, ?)",
        }
    }

    /// The values to bind to the placeholders of the statement, in their order.
    pub fn parameters(&self) -> (parameters: Vec<Parameter>)
        ensures
            parameter_views(parameters@) == self@.parameters(),
    {
        let mut parameters: Vec<Parameter> = Vec::new();
        match self {
            StoreCommand::FindCityByName { name } => {
                parameters.push(Parameter::Text(name.clone()));
            },
            StoreCommand::FindCountryPopulation { code } => {
                parameters.push(Parameter::Text(code.clone()));
            },
            StoreCommand::InsertCity { draft } => {
                parameters.push(Parameter::Text(draft.name.clone()));
                parameters.push(Parameter::Text(draft.country_code.clone()));
                parameters.push(Parameter::Text(draft.district.clone()));
                parameters.push(Parameter::Integer(draft.population));
            },
        }
        assert(parameter_views(parameters@) =~= self@.parameters());
        parameters
    }
}

/// The columns of the city table, in the order of the fields of a city.
pub enum CityColumn {
    Id,
    Name,
    CountryCode,
    District,
    Population,
}

impl CityColumn {
    /// The name of the column in the store.
    pub open spec fn title(self) -> Seq<char> {
        match self {
            CityColumn::Id => "ID"@,
            CityColumn::Name => "Name"@,
            CityColumn::CountryCode => "CountryCode"@,
            CityColumn::District => "District"@,
            CityColumn::Population => "Population"@,
        }
    }

    /// The name of the column in the store.
    pub fn name(&self) -> (title: &'static str)
        ensures
            title@ == self.title(),
    {
        match self {
            CityColumn::Id => "ID",
            CityColumn::Name => "Name",
            CityColumn::CountryCode => "CountryCode",
            CityColumn::District => "District",
            CityColumn::Population => "Population",
        }
    }
}

/// The value of what the store answers to a search for a city.
pub open spec fn city_reply_view(reply: Result<Option<City>, StoreError>) -> Result<
    Option<CityView>,
    StoreError,
> {
    match reply {
        Ok(Some(city)) => Ok(Some(city@)),
        Ok(None) => Ok(None),
        Err(error) => Err(error),
    }
}

} // verus!
