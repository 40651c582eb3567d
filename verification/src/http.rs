//! The HTTP surface: turns the outcomes of the services into responses.
//!
//! This is the one place where an outcome becomes a status code. Each request
//! is one pass: at most one command goes to the store, and its reply decides
//! the response.

use vstd::prelude::*;
use vstd::string::*;
use crate::city::{City, CityDraft, CityDraftView, CityView};
use crate::lookup::{lookup, lookup_outcome};
use crate::ratio::{ratio_result_view, Ratio, RatioError, RatioView};
use crate::registration::{
    insert_command,
    register,
    registration_outcome,
    registration_result_view,
    validation_outcome,
    RegistrationError,
    ValidationError,
};
use crate::store::{city_reply_view, StoreCommand, StoreCommandView, StoreError};

verus! {

/// The status of a response.
#[derive(Clone, Copy, Debug, PartialEq, Eq)]
pub enum Status {
    Success,
    BadRequest,
    NotFound,
    UnprocessableEntity,
    InternalServerError,
}

impl Status {
    /// The status code on the wire.
    pub open spec fn number(self) -> int {
        match self {
            Status::Success => 200,
            Status::BadRequest => 400,
            Status::NotFound => 404,
            Status::UnprocessableEntity => 422,
            Status::InternalServerError => 500,
        }
    }

    /// The status code on the wire.
    pub fn code(&self) -> (code: u16)
        ensures
            code == self.number(),
    {
        match self {
            Status::Success => 200,
            Status::BadRequest => 400,
            Status::NotFound => 404,
            Status::UnprocessableEntity => 422,
            Status::InternalServerError => 500,
        }
    }
}

/// What a response carries: a city, a ratio, or the text of an error, which
/// goes out under the key `error`.
#[derive(Clone, Debug, PartialEq, Eq)]
pub enum Body {
    City(City),
    Ratio(Ratio),
    Error(String),
}

/// The mathematical value of a [`Body`].
pub enum BodyView {
    City(CityView),
    Ratio(RatioView),
    Error(Seq<char>),
}

impl View for Body {
    type V = BodyView;

    open spec fn view(&self) -> BodyView {
        match self {
            Body::City(city) => BodyView::City(city@),
            Body::Ratio(ratio) => BodyView::Ratio(ratio@),
            Body::Error(text) => BodyView::Error(text@),
        }
    }
}

/// A status and a body.
#[derive(Clone, Debug, PartialEq, Eq)]
pub struct Response {
    pub status: Status,
    pub body: Body,
}

/// The mathematical value of a [`Response`].
pub struct ResponseView {
    pub status: Status,
    pub body: BodyView,
}

impl View for Response {
    type V = ResponseView;

    open spec fn view(&self) -> ResponseView {
        ResponseView { status: self.status, body: self.body@ }
    }
}

/// What comes next in the handling of a creation request: an insertion for
/// the store, together with the draft that it is for, or the response.
#[derive(Clone, Debug, PartialEq, Eq)]
pub enum Step {
    Ask { command: StoreCommand, draft: CityDraft },
    Reply(Response),
}

/// The mathematical value of a [`Step`].
pub enum StepView {
    Ask { command: StoreCommandView, draft: CityDraftView },
    Reply(ResponseView),
}

impl View for Step {
    type V = StepView;

    open spec fn view(&self) -> StepView {
        match self {
            Step::Ask { command, draft } => StepView::Ask { command: command@, draft: draft@ },
            Step::Reply(response) => StepView::Reply(response@),
        }
    }
}

/// The response that carries an error text under a status.
pub open spec fn error_reply(status: Status, text: Seq<char>) -> ResponseView {
    ResponseView { status, body: BodyView::Error(text) }
}

/// The response to a failure of the store. Its text is fixed and tells nothing
/// of the store.
pub open spec fn store_failure_reply() -> ResponseView {
    error_reply(Status::InternalServerError, "internal server error"@)
}

/// The text that tells why a draft was refused.
pub open spec fn validation_text(reason: ValidationError) -> Seq<char> {
    match reason {
        ValidationError::NegativePopulation => "population must not be negative"@,
        ValidationError::EmptyName => "name must not be empty"@,
    }
}

/// The response to the outcome of a lookup of `name`.
pub open spec fn lookup_reply(name: Seq<char>, outcome: Result<Option<CityView>, StoreError>)
    -> ResponseView {
    match outcome {
        Ok(Some(city)) => ResponseView { status: Status::Success, body: BodyView::City(city) },
        Ok(None) => error_reply(Status::NotFound, "No such city Name = "@ + name),
        Err(_) => store_failure_reply(),
    }
}

/// The response to the outcome of a registration.
pub open spec fn registration_reply(outcome: Result<CityView, RegistrationError>) -> ResponseView {
    match outcome {
        Ok(city) => ResponseView { status: Status::Success, body: BodyView::City(city) },
        Err(RegistrationError::Validation(reason)) => error_reply(
            Status::BadRequest,
            validation_text(reason),
        ),
        Err(RegistrationError::Store) => store_failure_reply(),
    }
}

/// The response to the outcome of a ratio for a city of the country `code`.
pub open spec fn ratio_reply(code: Seq<char>, outcome: Result<RatioView, RatioError>)
    -> ResponseView {
    match outcome {
        Ok(ratio) => ResponseView { status: Status::Success, body: BodyView::Ratio(ratio) },
        Err(RatioError::CountryNotFound) => error_reply(
            Status::NotFound,
            "No such country Code = "@ + code,
        ),
        Err(RatioError::DivisionUndefined) => error_reply(
            Status::UnprocessableEntity,
            "country population is zero"@,
        ),
        Err(RatioError::Store) => store_failure_reply(),
    }
}

/// The response to a body that could not be read as a draft.
pub open spec fn malformed_body_reply() -> ResponseView {
    error_reply(Status::BadRequest, "Bad Request"@)
}

/// The first step of a creation request whose body was read as `body`, or not
/// read at all.
pub open spec fn creation_first_step(body: Option<CityDraftView>) -> StepView {
    match body {
        None => StepView::Reply(malformed_body_reply()),
        Some(draft) => match validation_outcome(draft) {
            Err(reason) => StepView::Reply(
                registration_reply(Err(RegistrationError::Validation(reason))),
            ),
            Ok(_) => StepView::Ask { command: StoreCommandView::InsertCity { draft }, draft },
        },
    }
}

/// The value of a body that was read, or of none.
pub open spec fn draft_view(body: Option<CityDraft>) -> Option<CityDraftView> {
    match body {
        Some(draft) => Some(draft@),
        None => None,
    }
}

fn error_response(status: Status, text: String) -> (response: Response)
    ensures
        response@ == error_reply(status, text@),
{
    Response { status, body: Body::Error(text) }
}

fn store_failure_response() -> (response: Response)
    ensures
        response@ == store_failure_reply(),
{
    error_response(Status::InternalServerError, "internal server error".to_owned())
}

fn validation_message(reason: ValidationError) -> (text: &'static str)
    ensures
        text@ == validation_text(reason),
{
    match reason {
        ValidationError::NegativePopulation => "population must not be negative",
        ValidationError::EmptyName => "name must not be empty",
    }
}

/// The response to the outcome of a lookup of `name`: the city under status
/// 200; for no city, status 404 and a text that ends in the name; for a failure
/// of the store, status 500 and a fixed text.
pub fn lookup_response(name: &str, outcome: Result<Option<City>, StoreError>) -> (response:
    Response)
    ensures
        response@ == lookup_reply(name@, city_reply_view(outcome)),
{
    match outcome {
        Ok(Some(city)) => Response { status: Status::Success, body: Body::City(city) },
        Ok(None) => {
            let mut text = "No such city Name = ".to_owned();
            text.append(name);
            error_response(Status::NotFound, text)
        },
        Err(_) => store_failure_response(),
    }
}

/// The response to the outcome of a registration: the city under status 200;
/// for a refused draft, status 400 and the reason; for a failure of the store,
/// status 500 and a fixed text.
pub fn registration_response(outcome: Result<City, RegistrationError>) -> (response: Response)
    ensures
        response@ == registration_reply(registration_result_view(outcome)),
{
    match outcome {
        Ok(city) => Response { status: Status::Success, body: Body::City(city) },
        Err(RegistrationError::Validation(reason)) => error_response(
            Status::BadRequest,
            validation_message(reason).to_owned(),
        ),
        Err(RegistrationError::Store) => store_failure_response(),
    }
}

/// The response to the outcome of a ratio for `city`: the ratio under status
/// 200; for a missing country, status 404 and a text that ends in the country
/// code; for a population of zero, status 422; for a failure of the store,
/// status 500 and a fixed text.
pub fn ratio_response(city: &City, outcome: Result<Ratio, RatioError>) -> (response: Response)
    ensures
        response@ == ratio_reply(city.country_code@, ratio_result_view(outcome)),
{
    match outcome {
        Ok(ratio) => Response { status: Status::Success, body: Body::Ratio(ratio) },
        Err(RatioError::CountryNotFound) => {
            let mut text = "No such country Code = ".to_owned();
            text.append(city.country_code.as_str());
            error_response(Status::NotFound, text)
        },
        Err(RatioError::DivisionUndefined) => error_response(
            Status::UnprocessableEntity,
            "country population is zero".to_owned(),
        ),
        Err(RatioError::Store) => store_failure_response(),
    }
}

/// Answers a request for the city called `name`, given the store's reply to
/// the search for it.
pub fn get_city(name: &str, reply: Result<Option<City>, StoreError>) -> (response: Response)
    ensures
        response@ == lookup_reply(name@, lookup_outcome(name@, city_reply_view(reply))),
{
    lookup_response(name, lookup(name, reply))
}

/// Begins a creation request. `body` is the draft that the request carried, or
/// `None` where it carried none that could be read.
///
/// Only a valid draft leads to a command for the store, and it comes back
/// beside the command, for [`finish_post_city`]. An unreadable body and a
/// refused draft are answered at once with status 400.
pub fn begin_post_city(body: Option<CityDraft>) -> (step: Step)
    ensures
        step@ == creation_first_step(draft_view(body)),
        step is Ask <==> (body matches Some(draft) && draft@.is_valid()),
{
    match body {
        None => Step::Reply(error_response(Status::BadRequest, "Bad Request".to_owned())),
        Some(draft) => match insert_command(&draft) {
            Ok(command) => Step::Ask { command, draft },
            Err(reason) => Step::Reply(
                registration_response(Err(RegistrationError::Validation(reason))),
            ),
        },
    }
}

/// Completes a creation request for `draft`, given the store's reply to the
/// insertion.
pub fn finish_post_city(draft: CityDraft, reply: Result<u64, StoreError>) -> (response: Response)
    ensures
        response@ == registration_reply(registration_outcome(draft@, reply)),
{
    registration_response(register(draft, reply))
}

} // verus!
