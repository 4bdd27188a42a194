//! The handlers of the meal routes. Each one turns what the store answered
//! into the reply for the client; asking the store is the caller's part.

use crate::backend::backend_types::{ErrorResp, ErrorRespView, Health, HealthView};
use crate::backend::ids::{fresh_id, is_random_uuid};
use crate::backend::reply::{Payload, PayloadView, Reply, ReplyView, Status};
use crate::backend::store::{
    all_readable, scanned_meals, scanned_views, Answer, AnswerView, Ask, AskView, Fetched,
    FetchedView, Listing, ListingView, Scanned, ScannedView, Written, WrittenView,
};
use crate::shared::{meal_views, Meal, MealView};
use crate::text::{remove_char, without};
use vstd::prelude::*;
use vstd::string::StringExecFns;

verus! {

/// The reply with an error message for a body.
pub open spec fn error_reply(status: Status, message: Seq<char>) -> ReplyView {
    ReplyView::plain(status, PayloadView::Error(ErrorRespView { error: message }))
}

/// The reply to a request for one meal: the meal where it was found, "not
/// found" where there is none, and a server error with the complaint where
/// the store failed or the record does not read as a meal.
pub open spec fn specific_meal_reply(fetched: FetchedView) -> ReplyView {
    match fetched {
        FetchedView::Found(meal) => ReplyView::plain(Status::Okay, PayloadView::Meal(meal)),
        FetchedView::Missing => ReplyView::plain(Status::NotFound, PayloadView::Null),
        FetchedView::Unreadable(message) => error_reply(Status::InternalServerError, message),
        FetchedView::Failed(message) => error_reply(Status::InternalServerError, message),
    }
}

/// The reply to a create request: the stored record, or the store's complaint.
pub open spec fn create_meal_reply(stored: MealView, written: WrittenView) -> ReplyView {
    match written {
        WrittenView::Done => ReplyView::plain(Status::Created, PayloadView::Meal(stored)),
        WrittenView::Failed(message) => error_reply(Status::InternalServerError, message),
    }
}

/// The reply to an update request: the stored record, or "bad request".
pub open spec fn update_meal_reply(stored: MealView, written: WrittenView) -> ReplyView {
    match written {
        WrittenView::Done => ReplyView::plain(Status::Accepted, PayloadView::Meal(stored)),
        WrittenView::Failed(_) => ReplyView::plain(Status::BadRequest, PayloadView::Null),
    }
}

/// The reply to a delete request: "no content", or "bad request" where the
/// store failed. Neither has a body.
pub open spec fn delete_meal_reply(written: WrittenView) -> ReplyView {
    match written {
        WrittenView::Done => ReplyView::plain(Status::NoContent, PayloadView::Nothing),
        WrittenView::Failed(_) => ReplyView::plain(Status::BadRequest, PayloadView::Nothing),
    }
}

/// The complaint of the first record of a scan that does not read as a meal.
pub open spec fn first_unreadable(items: Seq<ScannedView>) -> Option<Seq<char>>
    decreases items.len(),
{
    if items.len() == 0 {
        None
    } else {
        match first_unreadable(items.drop_last()) {
            Some(message) => Some(message),
            None => match items.last() {
                ScannedView::Unreadable(message) => Some(message),
                ScannedView::Meal(_) => None,
            },
        }
    }
}

/// The reply to a list request: all the meals, or an error where the store
/// failed or a single record does not read as a meal.
pub open spec fn all_meals_reply(listing: ListingView) -> ReplyView {
    match listing {
        ListingView::Failed(message) => error_reply(Status::InternalServerError, message),
        ListingView::Items(items) => match first_unreadable(items) {
            Some(message) => error_reply(Status::InternalServerError, message),
            None => ReplyView::plain(Status::Okay, PayloadView::Meals(scanned_meals(items))),
        },
    }
}

/// The reply to a request, given what it asked of the store and what the
/// store answered. An answer to another question is a server error.
pub open spec fn concluded(ask: AskView, answer: AnswerView) -> ReplyView {
    match (ask, answer) {
        (AskView::Get(_), AnswerView::Fetched(fetched)) => specific_meal_reply(fetched),
        (AskView::Scan, AnswerView::Listed(listing)) => all_meals_reply(listing),
        (AskView::Create(meal), AnswerView::Written(written)) => create_meal_reply(meal, written),
        (AskView::Update(meal), AnswerView::Written(written)) => update_meal_reply(meal, written),
        (AskView::Delete(_), AnswerView::Written(written)) => delete_meal_reply(written),
        _ => error_reply(Status::InternalServerError, "the store answered another question"@),
    }
}

/// The version that the health check reports: `dev` for a build without a
/// version text, else that text without its line breaks.
pub open spec fn version_text(gitbits: Seq<char>) -> Seq<char> {
    if gitbits.len() == 0 {
        "dev"@
    } else {
        without(gitbits, '\n')
    }
}

/// The reply of the health check.
pub open spec fn healthy_reply(gitbits: Seq<char>) -> ReplyView {
    ReplyView::plain(
        Status::Okay,
        PayloadView::Health(HealthView { healthy: true, version: version_text(gitbits) }),
    )
}

/// The reply to whatever no route took, or the guard turned away.
pub open spec fn unauthed_reply() -> ReplyView {
    ReplyView::plain(Status::Unauthorized, PayloadView::Null)
}

/// Answers a request for one meal, given what the store found under its id.
pub fn specific_meal(fetched: Fetched) -> (reply: Reply)
    ensures
        reply@ == specific_meal_reply(fetched@),
{
    match fetched {
        Fetched::Found(meal) => Reply::plain(Status::Okay, Payload::Meal(meal)),
        Fetched::Missing => Reply::plain(Status::NotFound, Payload::Null),
        Fetched::Unreadable(message) => Reply::plain(
            Status::InternalServerError,
            Payload::Error(ErrorResp { error: message }),
        ),
        Fetched::Failed(message) => Reply::plain(
            Status::InternalServerError,
            Payload::Error(ErrorResp { error: message }),
        ),
    }
}

/// The record to store for a create request: the payload under a newly
/// minted id. Whatever id the client sent is dropped.
pub fn new_record(create: Meal) -> (record: Meal)
    ensures
        record@ == create@.with_id(record.id),
        is_random_uuid(record.id),
{
    let id = fresh_id();
    create.with_id(id)
}

/// Answers a create request, given the record that the store was asked to
/// keep and what the store said.
pub fn create_meal(stored: Meal, written: Written) -> (reply: Reply)
    ensures
        reply@ == create_meal_reply(stored@, written@),
{
    match written {
        Written::Done => Reply::plain(Status::Created, Payload::Meal(stored)),
        Written::Failed(message) => Reply::plain(
            Status::InternalServerError,
            Payload::Error(ErrorResp { error: message }),
        ),
    }
}

/// The record to store for an update request: the payload under the id of
/// the path. An id in the payload does not count.
pub fn replacement(id: u128, update: Meal) -> (record: Meal)
    ensures
        record@ == update@.with_id(id),
{
    update.with_id(id)
}

/// Answers an update request, given the record that the store was asked to
/// keep and what the store said.
pub fn update_meal(stored: Meal, written: Written) -> (reply: Reply)
    ensures
        reply@ == update_meal_reply(stored@, written@),
{
    match written {
        Written::Done => Reply::plain(Status::Accepted, Payload::Meal(stored)),
        Written::Failed(_) => Reply::plain(Status::BadRequest, Payload::Null),
    }
}

/// Answers a delete request, given what the store said.
pub fn delete_meal(written: Written) -> (reply: Reply)
    ensures
        reply@ == delete_meal_reply(written@),
{
    match written {
        Written::Done => Reply::plain(Status::NoContent, Payload::Nothing),
        Written::Failed(_) => Reply::plain(Status::BadRequest, Payload::Nothing),
    }
}

/// Answers a list request, given what the scan returned.
pub fn all_meals(listing: Listing) -> (reply: Reply)
    ensures
        reply@ == all_meals_reply(listing@),
{
    match listing {
        Listing::Failed(message) => Reply::plain(
            Status::InternalServerError,
            Payload::Error(ErrorResp { error: message }),
        ),
        Listing::Items(items) => {
            let ghost all = scanned_views(items@);
            let mut meals: Vec<Meal> = Vec::new();
            let mut at: usize = 0;
            while at < items.len()
                invariant
                    at <= items.len(),
                    listing@ == ListingView::Items(all),
                    all == scanned_views(items@),
                    first_unreadable(all.take(at as int)) is None,
                    meal_views(meals@) == scanned_meals(all.take(at as int)),
                decreases items.len() - at,
            {
                proof {
                    assert(all.take(at + 1).drop_last() == all.take(at as int));
                    assert(all.take(at + 1).last() == items@[at as int]@);
                }
                match &items[at] {
                    Scanned::Unreadable(message) => {
                        proof {
                            assert(first_unreadable(all.take(at + 1)) == Some(message@));
                            lemma_first_unreadable_of_prefix(all, at + 1);
                        }
                        return Reply::plain(
                            Status::InternalServerError,
                            Payload::Error(ErrorResp { error: message.clone() }),
                        );
                    },
                    Scanned::Meal(meal) => {
                        let ghost before = meals@;
                        meals.push(meal.duplicate());
                        proof {
                            assert(first_unreadable(all.take(at + 1)) is None);
                            assert(meal_views(meals@) == meal_views(before).push(meal@));
                            assert(scanned_meals(all.take(at + 1)) == scanned_meals(
                                all.take(at as int),
                            ).push(meal@));
                        }
                    },
                }
                at += 1;
            }
            proof {
                assert(all.take(at as int) == all);
            }
            Reply::plain(Status::Okay, Payload::Meals(meals))
        },
    }
}

/// A scan whose records all read as meals is answered with all of them.
pub proof fn readable_scan_is_listed(items: Seq<ScannedView>)
    requires
        all_readable(items),
    ensures
        all_meals_reply(ListingView::Items(items)) == ReplyView::plain(
            Status::Okay,
            PayloadView::Meals(scanned_meals(items)),
        ),
    decreases items.len(),
{
    if items.len() > 0 {
        readable_scan_is_listed(items.drop_last());
    }
}

/// A complaint found in a prefix of a scan is the complaint of the whole scan.
proof fn lemma_first_unreadable_of_prefix(items: Seq<ScannedView>, n: int)
    requires
        0 <= n <= items.len(),
        first_unreadable(items.take(n)) is Some,
    ensures
        first_unreadable(items) == first_unreadable(items.take(n)),
    decreases items.len() - n,
{
    if n < items.len() {
        assert(items.take(n + 1).drop_last() == items.take(n));
        lemma_first_unreadable_of_prefix(items, n + 1);
    } else {
        assert(items.take(n) == items);
    }
}

/// Answers a request once the store has answered what the request asked of
/// it: each question goes to its handler.
pub fn conclude(ask: Ask, answer: Answer) -> (reply: Reply)
    ensures
        reply@ == concluded(ask@, answer@),
{
    match (ask, answer) {
        (Ask::Get(_), Answer::Fetched(fetched)) => specific_meal(fetched),
        (Ask::Scan, Answer::Listed(listing)) => all_meals(listing),
        (Ask::Create(meal), Answer::Written(written)) => create_meal(meal, written),
        (Ask::Update(meal), Answer::Written(written)) => update_meal(meal, written),
        (Ask::Delete(_), Answer::Written(written)) => delete_meal(written),
        _ => Reply::plain(
            Status::InternalServerError,
            Payload::Error(
                ErrorResp { error: String::from_str("the store answered another question") },
            ),
        ),
    }
}

/// Answers the health check for a build with this version text.
pub fn healthy(gitbits: &str) -> (reply: Reply)
    ensures
        reply@ == healthy_reply(gitbits@),
{
    let version = if gitbits.is_empty() {
        String::from_str("dev")
    } else {
        remove_char(gitbits, '\n')
    };
    Reply::plain(Status::Okay, Payload::Health(Health { healthy: true, version }))
}

/// Answers a request that no route took, or that the guard turned away.
pub fn unauthed_resp() -> (reply: Reply)
    ensures
        reply@ == unauthed_reply(),
{
    Reply::plain(Status::Unauthorized, Payload::Null)
}

} // verus!
