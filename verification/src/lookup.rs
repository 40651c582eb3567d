//! The city lookup service: finds a city by its exact name.

use vstd::prelude::*;
use crate::city::{same_text, City, CityView};
use crate::store::{city_reply_view, StoreCommand, StoreCommandView, StoreError};

verus! {

/// What a lookup of `name` yields on a given reply of the store: the row, if
/// the store answered with one that bears exactly this name; nothing, if it
/// answered with none or with a row of another name; the failure, if it failed.
pub open spec fn lookup_outcome(name: Seq<char>, reply: Result<Option<CityView>, StoreError>)
    -> Result<Option<CityView>, StoreError> {
    match reply {
        Ok(Some(row)) => if row.name == name {
            Ok(Some(row))
        } else {
            Ok(None)
        },
        Ok(None) => Ok(None),
        Err(error) => Err(error),
    }
}

/// The name to look up where the command line is `arguments`: its second
/// entry, or `Tokyo` where it has none.
pub open spec fn requested_name(arguments: Seq<String>) -> Seq<char> {
    if arguments.len() < 2 {
        "Tokyo"@
    } else {
        arguments[1]@
    }
}

/// Picks the name to look up from the command line, whose first entry is the
/// program itself.
pub fn name_from_arguments(arguments: &Vec<String>) -> (name: String)
    ensures
        name@ == requested_name(arguments@),
{
    if arguments.len() < 2 {
        "Tokyo".to_owned()
    } else {
        arguments[1].clone()
    }
}

/// The command that searches the store for the city called `name`.
pub fn lookup_command(name: &str) -> (command: StoreCommand)
    ensures
        command@ == (StoreCommandView::FindCityByName { name: name@ }),
{
    StoreCommand::FindCityByName { name: name.to_owned() }
}

/// Decides a lookup of `name` on the store's reply to [`lookup_command`].
///
/// Names are compared exactly, character by character: a row whose name
/// differs from `name` in case or otherwise counts as no row. Absence is the
/// ordinary outcome `Ok(None)`; only a failure of the store is an error, and it
/// is passed on unchanged.
pub fn lookup(name: &str, reply: Result<Option<City>, StoreError>) -> (outcome: Result<
    Option<City>,
    StoreError,
>)
    ensures
        city_reply_view(outcome) == lookup_outcome(name@, city_reply_view(reply)),
        outcome matches Ok(Some(city)) ==> reply == Ok::<Option<City>, StoreError>(Some(city))
            && city.name@ == name@,
        reply is Err <==> outcome is Err,
        reply matches Ok(found) && !(found matches Some(row) && row.name@ == name@)
            ==> outcome == Ok::<Option<City>, StoreError>(None),
{
    match reply {
        Ok(Some(city)) => {
            if same_text(city.name.as_str(), name) {
                Ok(Some(city))
            } else {
                Ok(None)
            }
        },
        Ok(None) => Ok(None),
        Err(error) => Err(error),
    }
}

} // verus!
