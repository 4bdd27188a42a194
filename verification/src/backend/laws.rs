//! What holds of the server whatever the requests are.

use crate::backend::auth::{authorizes, bearer_header, bearer_token};
use crate::backend::ids::uuid_parse;
use crate::backend::reply::{PayloadView, ReplyView, Status};
use crate::backend::routing::{route_of, Method, Route};
use crate::backend::server::{
    handled, lists_all, meal_brought, outcome, RequestView, SettingsView, State,
};
use crate::backend::store::{lists, Contents};
use crate::shared::MealView;
use vstd::prelude::*;

verus! {

/// One change to the meals.
pub enum Change {
    /// A meal is created under the id it carries.
    Create(MealView),
    /// The meal under this id is deleted.
    Delete(u128),
}

/// The meals after one change.
pub open spec fn apply(meals: Contents, change: Change) -> Contents {
    match change {
        Change::Create(meal) => meals.insert(meal.id, meal),
        Change::Delete(id) => meals.remove(id),
    }
}

/// The meals after a run of changes.
pub open spec fn replay(meals: Contents, changes: Seq<Change>) -> Contents
    decreases changes.len(),
{
    if changes.len() == 0 {
        meals
    } else {
        apply(replay(meals, changes.drop_last()), changes.last())
    }
}

/// How many of the changes create a meal.
pub open spec fn creates(changes: Seq<Change>) -> nat {
    changes.filter(|c: Change| c is Create).len()
}

/// How many of the changes delete a meal.
pub open spec fn deletes(changes: Seq<Change>) -> nat {
    changes.filter(|c: Change| c is Delete).len()
}

/// Every create brings an id that is not in use at that moment, and every
/// delete names a meal that is there at that moment.
pub open spec fn accounted(meals: Contents, changes: Seq<Change>) -> bool
    decreases changes.len(),
{
    if changes.len() == 0 {
        true
    } else {
        let so_far = replay(meals, changes.drop_last());
        &&& accounted(meals, changes.drop_last())
        &&& match changes.last() {
            Change::Create(meal) => !so_far.contains_key(meal.id),
            Change::Delete(id) => so_far.contains_key(id),
        }
    }
}

/// A create answers with the stored record, and the record's id is the
/// minted one whatever id the client sent: it differs from the client's
/// unless the mint draws that very id.
pub proof fn created_id_is_the_minted_one(
    state: State,
    settings: SettingsView,
    request: RequestView,
    now: u64,
    minted: u128,
)
    requires
        meal_brought(request) is Some,
    ensures
        ({
            let sent = meal_brought(request)->Some_0;
            let (reply, after) = outcome(state, settings, request, Route::CreateMeal, now, minted);
            &&& reply == ReplyView::plain(Status::Created, PayloadView::Meal(sent.with_id(minted)))
            &&& after.meals.contains_key(minted) && after.meals[minted] == sent.with_id(minted)
            &&& minted != sent.id ==> reply.body->Meal_0.id != sent.id
        }),
{
}

/// Deleting an id under which nothing stands succeeds and changes nothing.
pub proof fn delete_of_absent_id_succeeds(
    state: State,
    settings: SettingsView,
    request: RequestView,
    id: u128,
    now: u64,
    minted: u128,
)
    requires
        !state.meals.contains_key(id),
    ensures
        ({
            let (reply, after) = outcome(
                state,
                settings,
                request,
                Route::DeleteMeal(id),
                now,
                minted,
            );
            &&& reply == ReplyView::plain(Status::NoContent, PayloadView::Nothing)
            &&& after == state
        }),
{
    assert(state.meals.remove(id) =~= state.meals);
}

/// Deleting a second time changes nothing more.
pub proof fn delete_is_idempotent(meals: Contents, id: u128)
    ensures
        meals.remove(id).remove(id) == meals.remove(id),
{
    assert(meals.remove(id).remove(id) =~= meals.remove(id));
}

/// Asking for an id under which nothing stands is answered "not found", and
/// changes nothing.
pub proof fn get_of_absent_id_is_not_found(
    state: State,
    settings: SettingsView,
    request: RequestView,
    id: u128,
    now: u64,
    minted: u128,
)
    requires
        !state.meals.contains_key(id),
    ensures
        ({
            let (reply, after) = outcome(
                state,
                settings,
                request,
                Route::SpecificMeal(id),
                now,
                minted,
            );
            &&& reply == ReplyView::plain(Status::NotFound, PayloadView::Null)
            &&& after == state
        }),
{
}

/// With the header that presents a token which authorizes, as every token
/// does that a login has handed out, a request reaches the handlers that
/// change meals.
pub proof fn issued_token_passes_the_guard(
    token: Seq<char>,
    secret: Seq<char>,
    issued: Set<Seq<char>>,
    path: Seq<Seq<char>>,
)
    requires
        authorizes(bearer_header(token), issued, secret),
    ensures
        path.len() == 1 && path[0] == "meals"@ ==> route_of(
            Method::Post,
            path,
            Some(bearer_header(token)),
            issued,
            secret,
        ) == Route::CreateMeal,
        path.len() == 2 && path[0] == "meals"@ && uuid_parse(path[1]) is Some ==> {
            let id = uuid_parse(path[1])->Some_0;
            &&& route_of(Method::Put, path, Some(bearer_header(token)), issued, secret)
                == Route::UpdateMeal(id)
            &&& route_of(Method::Delete, path, Some(bearer_header(token)), issued, secret)
                == Route::DeleteMeal(id)
        },
{
}

/// Without an issued token a request never reaches a handler that changes
/// meals: not without the header, and not with a token that was not issued.
pub proof fn guard_holds(
    method: Method,
    path: Seq<Seq<char>>,
    authorization: Option<Seq<char>>,
    issued: Set<Seq<char>>,
    secret: Seq<char>,
)
    requires
        authorization matches Some(auth) ==> !issued.contains(bearer_token(auth)),
    ensures
        ({
            let route = route_of(method, path, authorization, issued, secret);
            &&& route != Route::CreateMeal
            &&& !(route is UpdateMeal)
            &&& !(route is DeleteMeal)
        }),
{
}

/// After creates with unused ids and deletes of meals that are there, the
/// table holds as many meals more as were created, less as many as were deleted.
pub proof fn count_after_changes(meals: Contents, changes: Seq<Change>)
    requires
        meals.dom().finite(),
        accounted(meals, changes),
    ensures
        replay(meals, changes).dom().finite(),
        replay(meals, changes).len() == meals.len() + creates(changes) - deletes(changes),
    decreases changes.len(),
{
    if changes.len() == 0 {
        assert(changes.filter(|c: Change| c is Create) =~= Seq::<Change>::empty());
        assert(changes.filter(|c: Change| c is Delete) =~= Seq::<Change>::empty());
    } else {
        let earlier = changes.drop_last();
        count_after_changes(meals, earlier);
        assert(changes == earlier.push(changes.last()));
        Seq::lemma_filter_push(earlier, changes.last(), |c: Change| c is Create);
        Seq::lemma_filter_push(earlier, changes.last(), |c: Change| c is Delete);
    }
}

/// The ids under which the changes create meals.
pub open spec fn created_ids(changes: Seq<Change>) -> Set<u128>
    decreases changes.len(),
{
    if changes.len() == 0 {
        Set::empty()
    } else {
        match changes.last() {
            Change::Create(meal) => created_ids(changes.drop_last()).insert(meal.id),
            Change::Delete(_) => created_ids(changes.drop_last()),
        }
    }
}

/// The ids that the deletes among the changes name, each once however often
/// it is named.
pub open spec fn deleted_ids(changes: Seq<Change>) -> Set<u128>
    decreases changes.len(),
{
    if changes.len() == 0 {
        Set::empty()
    } else {
        match changes.last() {
            Change::Create(_) => deleted_ids(changes.drop_last()),
            Change::Delete(id) => deleted_ids(changes.drop_last()).insert(id),
        }
    }
}

/// Every create brings a new id: one under which nothing stood at the
/// start and that no earlier change has named. The deletes may name any id,
/// also one that is not there, and the same id again.
pub open spec fn minted_anew(meals: Contents, changes: Seq<Change>) -> bool
    decreases changes.len(),
{
    if changes.len() == 0 {
        true
    } else {
        let earlier = changes.drop_last();
        &&& minted_anew(meals, earlier)
        &&& changes.last() matches Change::Create(meal) ==> {
            &&& !meals.contains_key(meal.id)
            &&& !created_ids(earlier).contains(meal.id)
            &&& !deleted_ids(earlier).contains(meal.id)
        }
    }
}

/// The meals that the deletes took away: the ids that a delete names and
/// under which a meal stood at the start or was created.
pub open spec fn taken_away(meals: Contents, changes: Seq<Change>) -> Set<u128> {
    (meals.dom() + created_ids(changes)).intersect(deleted_ids(changes))
}

/// After creates with new ids and any deletes, the table holds what stood
/// there at the start and what was created, but for what a delete named.
proof fn lemma_meals_after_changes(meals: Contents, changes: Seq<Change>)
    requires
        meals.dom().finite(),
        minted_anew(meals, changes),
    ensures
        replay(meals, changes).dom() == (meals.dom() + created_ids(changes)).difference(
            deleted_ids(changes),
        ),
        created_ids(changes).finite(),
        created_ids(changes).len() == creates(changes),
        created_ids(changes).disjoint(meals.dom()),
    decreases changes.len(),
{
    if changes.len() == 0 {
        assert(changes.filter(|c: Change| c is Create) =~= Seq::<Change>::empty());
        assert(replay(meals, changes).dom() =~= (meals.dom() + created_ids(changes)).difference(
            deleted_ids(changes),
        ));
    } else {
        let earlier = changes.drop_last();
        lemma_meals_after_changes(meals, earlier);
        assert(changes == earlier.push(changes.last()));
        Seq::lemma_filter_push(earlier, changes.last(), |c: Change| c is Create);
        assert(replay(meals, changes).dom() =~= (meals.dom() + created_ids(changes)).difference(
            deleted_ids(changes),
        ));
    }
}

/// After creates with new ids and any deletes, also such as name an id that
/// is not there or the same id again, the table holds as many meals more as
/// were created, less one for each id that a delete took a meal from: a
/// delete that repeats or misses changes the count by nothing.
pub proof fn count_after_any_deletes(meals: Contents, changes: Seq<Change>)
    requires
        meals.dom().finite(),
        minted_anew(meals, changes),
    ensures
        taken_away(meals, changes).finite(),
        replay(meals, changes).len() == meals.len() + creates(changes) - taken_away(
            meals,
            changes,
        ).len(),
{
    lemma_meals_after_changes(meals, changes);
    let held = meals.dom() + created_ids(changes);
    let named = deleted_ids(changes);
    vstd::set_lib::lemma_set_disjoint_lens(meals.dom(), created_ids(changes));
    assert(meals.dom().disjoint(created_ids(changes)));
    let kept = held.difference(named);
    let taken = held.intersect(named);
    vstd::set_lib::lemma_len_subset(kept, held);
    vstd::set_lib::lemma_len_subset(taken, held);
    vstd::set_lib::lemma_set_disjoint_lens(kept, taken);
    assert(kept + taken =~= held);
    assert(kept.disjoint(taken));
}

/// A listing taken after creates with new ids and any deletes has one record
/// for each meal that stood there at the start or was created, less one for
/// each id that a delete took a meal from.
pub proof fn listing_counts_distinct_deletes(
    meals: Contents,
    changes: Seq<Change>,
    items: Seq<MealView>,
)
    requires
        meals.dom().finite(),
        minted_anew(meals, changes),
        lists(items, replay(meals, changes)),
    ensures
        items.len() == meals.len() + creates(changes) - taken_away(meals, changes).len(),
{
    count_after_any_deletes(meals, changes);
}

/// A listing taken after creates with unused ids and deletes of meals that
/// are there has one record for each meal created and not deleted, besides
/// those that were there before.
pub proof fn listing_counts_creates_less_deletes(
    meals: Contents,
    changes: Seq<Change>,
    items: Seq<MealView>,
)
    requires
        meals.dom().finite(),
        accounted(meals, changes),
        lists(items, replay(meals, changes)),
    ensures
        items.len() == meals.len() + creates(changes) - deletes(changes),
{
    count_after_changes(meals, changes);
}

/// No request takes an issued token back: whatever is handled, the tokens
/// issued before are issued after.
pub proof fn issued_tokens_only_grow(
    before: State,
    settings: SettingsView,
    request: RequestView,
    now: u64,
    minted: u128,
    reply: ReplyView,
    after: State,
)
    requires
        handled(before, settings, request, now, minted, reply, after),
    ensures
        before.issued.subset_of(after.issued),
{
}

/// A header that authorizes keeps doing so over every request that the
/// server handles.
pub proof fn authorization_survives_requests(
    auth: Seq<char>,
    before: State,
    settings: SettingsView,
    request: RequestView,
    now: u64,
    minted: u128,
    reply: ReplyView,
    after: State,
)
    requires
        authorizes(auth, before.issued, settings.jwt_secret),
        handled(before, settings, request, now, minted, reply, after),
    ensures
        authorizes(auth, after.issued, settings.jwt_secret),
{
    issued_tokens_only_grow(before, settings, request, now, minted, reply, after);
}

/// A create that brings a meal and a delete change the meals as the changes
/// of those names do; reading changes nothing.
pub proof fn requests_change_meals_as_changes(
    state: State,
    settings: SettingsView,
    request: RequestView,
    id: u128,
    now: u64,
    minted: u128,
)
    ensures
        meal_brought(request) matches Some(sent) ==> outcome(
            state,
            settings,
            request,
            Route::CreateMeal,
            now,
            minted,
        ).1.meals == apply(state.meals, Change::Create(sent.with_id(minted))),
        outcome(state, settings, request, Route::DeleteMeal(id), now, minted).1.meals == apply(
            state.meals,
            Change::Delete(id),
        ),
        outcome(state, settings, request, Route::SpecificMeal(id), now, minted).1 == state,
        outcome(state, settings, request, Route::Health, now, minted).1 == state,
{
}

/// The answer to a list request has one record for each meal of the table.
pub proof fn list_reply_counts_meals(reply: ReplyView, meals: Contents)
    requires
        lists_all(reply, meals),
    ensures
        reply.body matches PayloadView::Meals(items) && items.len() == meals.len(),
{
}

} // verus!
