//! What holds of the services taken together.

use vstd::prelude::*;
use crate::city::{CityDraftView, CityView};
use crate::http::{
    creation_first_step,
    error_reply,
    lookup_reply,
    registration_reply,
    validation_text,
    BodyView,
    ResponseView,
    Status,
    StepView,
};
use crate::lookup::lookup_outcome;
use crate::registration::{registration_outcome, ValidationError};
use crate::store::{StoreCommandView, StoreError};

verus! {

/// A city that was registered is found again under its name.
///
/// Let a registration of `draft` succeed on the store's reply. Then the draft
/// was sent to the store as an insertion, and a lookup of the draft's name
/// that the store answers with the inserted row yields the registered city:
/// every field of the draft, unchanged, with the identifier that the store
/// assigned, which is not zero.
pub proof fn lemma_registered_city_is_found(draft: CityDraftView, reply: Result<u64, StoreError>)
    requires
        registration_outcome(draft, reply) is Ok,
    ensures
        ({
            let command = StoreCommandView::InsertCity { draft };
            let created = registration_outcome(draft, reply)->Ok_0;
            let stored = command.inserted_row(reply->Ok_0 as int);
            &&& creation_first_step(Some(draft)) == (StepView::Ask { command, draft })
            &&& lookup_outcome(draft.name, Ok(Some(stored))) == Ok::<Option<CityView>, StoreError>(
                Some(created),
            )
            &&& created.draft() == draft
            &&& created.id == reply->Ok_0
            &&& created.is_persisted()
            &&& created.is_valid()
        }),
{
}

/// What a successful creation request shows is what a later request for the
/// same name shows: both answer with status 200 and the same city.
pub proof fn lemma_created_city_is_served(draft: CityDraftView, reply: Result<u64, StoreError>)
    requires
        registration_outcome(draft, reply) is Ok,
    ensures
        ({
            let created = registration_outcome(draft, reply)->Ok_0;
            let shown = ResponseView { status: Status::Success, body: BodyView::City(created) };
            &&& registration_reply(registration_outcome(draft, reply)) == shown
            &&& lookup_reply(draft.name, lookup_outcome(draft.name, Ok(Some(created)))) == shown
        }),
{
}

/// A draft that validation refuses never reaches the store: its creation
/// request is answered at once, with status 400. A draft of negative
/// population is such a draft, and the answer says so.
pub proof fn lemma_refused_draft_asks_nothing(draft: CityDraftView)
    requires
        !draft.is_valid(),
    ensures
        creation_first_step(Some(draft)) is Reply,
        creation_first_step(Some(draft))->Reply_0.status == Status::BadRequest,
        draft.population < 0 ==> creation_first_step(Some(draft)) == StepView::Reply(
            error_reply(
                Status::BadRequest,
                validation_text(ValidationError::NegativePopulation),
            ),
        ),
{
}

/// A lookup fails only where the store failed: on every reply of a healthy
/// store it yields a city or the ordinary outcome that there is none, and it
/// yields none where the store had no row of exactly that name.
pub proof fn lemma_lookup_fails_only_with_the_store(
    name: Seq<char>,
    reply: Result<Option<CityView>, StoreError>,
)
    ensures
        lookup_outcome(name, reply) is Err <==> reply is Err,
        reply matches Ok(found) && !(found matches Some(row) && row.name == name)
            ==> lookup_outcome(name, reply) == Ok::<Option<CityView>, StoreError>(None),
        lookup_outcome(name, reply) matches Ok(None) ==> lookup_reply(
            name,
            lookup_outcome(name, reply),
        ).status == Status::NotFound,
{
}

} // verus!
