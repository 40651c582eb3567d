//! A record of three fields, used to show a value going out and coming back.

use vstd::prelude::*;

verus! {

/// A number, a text and a truth value.
#[derive(Clone, Debug, PartialEq, Eq)]
pub struct JsonData {
    pub number: i32,
    pub string: String,
    pub flag: bool,
}

/// The mathematical value of a [`JsonData`].
pub struct JsonDataView {
    pub number: int,
    pub string: Seq<char>,
    pub flag: bool,
}

impl View for JsonData {
    type V = JsonDataView;

    open spec fn view(&self) -> JsonDataView {
        JsonDataView { number: self.number as int, string: self.string@, flag: self.flag }
    }
}

impl JsonData {
    /// The record that is shown on request: 42, `hello` and true.
    pub fn sample() -> (data: JsonData)
        ensures
            data@ == (JsonDataView { number: 42, string: "hello"@, flag: true }),
    {
        JsonData { number: 42, string: "hello".to_owned(), flag: true }
    }
}

} // verus!
