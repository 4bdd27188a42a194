//! The whole server over a table in memory: one request in, one reply out.

use crate::backend::auth::{
    credentials_match, login, login_result, refusal, token_expiry, Secrets,
};
use crate::backend::backend_types::{Login, LoginView};
use crate::backend::handlers::{
    conclude, create_meal_reply, delete_meal_reply, healthy, healthy_reply,
    readable_scan_is_listed, replacement, specific_meal_reply, unauthed_reply, unauthed_resp,
    update_meal_reply,
};
use crate::backend::ids::{fresh_id, is_random_uuid};
use crate::backend::jwt_db::JwtDb;
use crate::backend::reply::{PayloadView, Reply, ReplyView, Status};
use crate::backend::routing::{
    body_admitted, body_within_limit, meal_filters, route_of, Method, Route,
};
use crate::backend::store::{
    fetch_of, lists, AnswerView, Ask, AskView, Contents, ListingView, MealTable, WrittenView,
};
use crate::backend::tokens::signed_token;
use crate::shared::{opt_text, Meal, MealView};
use crate::text::texts_of;
use vstd::prelude::*;

verus! {

/// The body of a request, as far as it could be read.
#[derive(Debug, Clone, PartialEq, Eq)]
pub enum Body {
    Meal(Meal),
    Login(Login),
    /// No body, or one that reads as neither.
    Other,
}

pub enum BodyView {
    Meal(MealView),
    Login(LoginView),
    Other,
}

impl View for Body {
    type V = BodyView;

    open spec fn view(&self) -> BodyView {
        match self {
            Body::Meal(m) => BodyView::Meal(m@),
            Body::Login(l) => BodyView::Login(l@),
            Body::Other => BodyView::Other,
        }
    }
}

/// A request, with its path cut into segments and its body read.
#[derive(Debug, Clone, PartialEq, Eq)]
pub struct Request {
    pub method: Method,
    pub path: Vec<String>,
    /// The `Authorization` header, if the request has one.
    pub authorization: Option<String>,
    /// The `Content-Length` header, if the request has one.
    pub content_length: Option<u64>,
    pub body: Body,
}

pub struct RequestView {
    pub method: Method,
    pub path: Seq<Seq<char>>,
    pub authorization: Option<Seq<char>>,
    pub content_length: Option<u64>,
    pub body: BodyView,
}

impl View for Request {
    type V = RequestView;

    open spec fn view(&self) -> RequestView {
        RequestView {
            method: self.method,
            path: texts_of(self.path@),
            authorization: opt_text(self.authorization),
            content_length: self.content_length,
            body: self.body@,
        }
    }
}

/// What the server is built with.
pub struct Settings {
    pub secrets: Secrets,
    /// The version text of the build; empty for a development build.
    pub gitbits: String,
}

pub struct SettingsView {
    pub password: Seq<char>,
    pub jwt_secret: Seq<char>,
    pub gitbits: Seq<char>,
}

impl View for Settings {
    type V = SettingsView;

    open spec fn view(&self) -> SettingsView {
        SettingsView {
            password: self.secrets.password@,
            jwt_secret: self.secrets.jwt_secret@,
            gitbits: self.gitbits@,
        }
    }
}

/// What the server holds between requests.
pub struct State {
    pub meals: Contents,
    pub issued: Set<Seq<char>>,
}

/// The meal in a body, where a body of that length is admitted and reads as one.
pub open spec fn meal_in(content_length: Option<u64>, body: BodyView) -> Option<MealView> {
    if body_within_limit(content_length) {
        match body {
            BodyView::Meal(meal) => Some(meal),
            _ => None,
        }
    } else {
        None
    }
}

/// The login in a body, where a body of that length is admitted and reads as one.
pub open spec fn login_in(content_length: Option<u64>, body: BodyView) -> Option<LoginView> {
    if body_within_limit(content_length) {
        match body {
            BodyView::Login(attempt) => Some(attempt),
            _ => None,
        }
    } else {
        None
    }
}

/// The meal that a request brings.
pub open spec fn meal_brought(request: RequestView) -> Option<MealView> {
    meal_in(request.content_length, request.body)
}

/// The login that a request brings.
pub open spec fn login_brought(request: RequestView) -> Option<LoginView> {
    login_in(request.content_length, request.body)
}

/// What a route reads the body of its request as.
#[derive(Debug, Clone, Copy, PartialEq, Eq, Structural)]
pub enum BodyKind {
    Meal,
    Login,
    /// The route reads no body.
    Nothing,
}

/// What a route reads the body of its request as: the routes that create
/// and update read a meal, the login reads a login, the others read nothing.
pub open spec fn body_kind(route: Route) -> BodyKind {
    match route {
        Route::CreateMeal => BodyKind::Meal,
        Route::UpdateMeal(_) => BodyKind::Meal,
        Route::Login => BodyKind::Login,
        _ => BodyKind::Nothing,
    }
}

/// What a route reads the body of its request as.
pub fn body_read_by(route: Route) -> (kind: BodyKind)
    ensures
        kind == body_kind(route),
{
    match route {
        Route::CreateMeal => BodyKind::Meal,
        Route::UpdateMeal(_) => BodyKind::Meal,
        Route::Login => BodyKind::Login,
        _ => BodyKind::Nothing,
    }
}

/// What is to be done for a routed request.
#[derive(Debug, Clone, PartialEq, Eq)]
pub enum Step {
    /// Ask the store, and answer with what `conclude` makes of its answer.
    Ask(Ask),
    /// Handle this login.
    Login(Login),
    /// Answer at once.
    Reply(Reply),
}

pub enum StepView {
    Ask(AskView),
    Login(LoginView),
    Reply(ReplyView),
}

impl View for Step {
    type V = StepView;

    open spec fn view(&self) -> StepView {
        match self {
            Step::Ask(ask) => StepView::Ask(ask@),
            Step::Login(attempt) => StepView::Login(attempt@),
            Step::Reply(reply) => StepView::Reply(reply@),
        }
    }
}

/// What is to be done for a request on `route`. A create keeps the meal it
/// brings under the id `minted`, an update under the id of its path; where
/// a route reads a body and the request brings none that is admitted and
/// reads as it should, the request is turned away like one without a route.
pub open spec fn step_of(
    route: Route,
    content_length: Option<u64>,
    body: BodyView,
    gitbits: Seq<char>,
    minted: u128,
) -> StepView {
    match route {
        Route::SpecificMeal(id) => StepView::Ask(AskView::Get(id)),
        Route::AllMeals => StepView::Ask(AskView::Scan),
        Route::CreateMeal => match meal_in(content_length, body) {
            Some(meal) => StepView::Ask(AskView::Create(meal.with_id(minted))),
            None => StepView::Reply(unauthed_reply()),
        },
        Route::UpdateMeal(id) => match meal_in(content_length, body) {
            Some(meal) => StepView::Ask(AskView::Update(meal.with_id(id))),
            None => StepView::Reply(unauthed_reply()),
        },
        Route::DeleteMeal(id) => StepView::Ask(AskView::Delete(id)),
        Route::Health => StepView::Reply(healthy_reply(gitbits)),
        Route::Login => match login_in(content_length, body) {
            Some(attempt) => StepView::Login(attempt),
            None => StepView::Reply(unauthed_reply()),
        },
        Route::Unauthed => StepView::Reply(unauthed_reply()),
    }
}

/// Says what is to be done for a routed request, with `minted` as the id
/// for a meal that it creates.
pub fn dispatch_with(
    route: Route,
    content_length: Option<u64>,
    body: Body,
    gitbits: &str,
    minted: u128,
) -> (step: Step)
    ensures
        step@ == step_of(route, content_length, body@, gitbits@, minted),
{
    let admitted = body_admitted(content_length);
    match route {
        Route::SpecificMeal(id) => Step::Ask(Ask::Get(id)),
        Route::AllMeals => Step::Ask(Ask::Scan),
        Route::CreateMeal => match body {
            Body::Meal(meal) => if admitted {
                Step::Ask(Ask::Create(meal.with_id(minted)))
            } else {
                Step::Reply(unauthed_resp())
            },
            _ => Step::Reply(unauthed_resp()),
        },
        Route::UpdateMeal(id) => match body {
            Body::Meal(meal) => if admitted {
                Step::Ask(Ask::Update(replacement(id, meal)))
            } else {
                Step::Reply(unauthed_resp())
            },
            _ => Step::Reply(unauthed_resp()),
        },
        Route::DeleteMeal(id) => Step::Ask(Ask::Delete(id)),
        Route::Health => Step::Reply(healthy(gitbits)),
        Route::Login => match body {
            Body::Login(attempt) => if admitted {
                Step::Login(attempt)
            } else {
                Step::Reply(unauthed_resp())
            },
            _ => Step::Reply(unauthed_resp()),
        },
        Route::Unauthed => Step::Reply(unauthed_resp()),
    }
}

/// Says what is to be done for a routed request. A meal that it creates
/// gets a newly minted id.
pub fn dispatch(route: Route, content_length: Option<u64>, body: Body, gitbits: &str) -> (step:
    Step)
    ensures
        exists|minted: u128|
            is_random_uuid(minted) && step@ == #[trigger] step_of(
                route,
                content_length,
                body@,
                gitbits@,
                minted,
            ),
{
    let minted = fresh_id();
    dispatch_with(route, content_length, body, gitbits, minted)
}

/// The reply to a login and the issued tokens after it.
pub open spec fn login_outcome(
    issued: Set<Seq<char>>,
    settings: SettingsView,
    attempt: LoginView,
    now: u64,
) -> (ReplyView, Set<Seq<char>>) {
    if credentials_match(attempt, settings.password) {
        login_result(
            issued,
            Some(signed_token(token_expiry(now), attempt.user, settings.jwt_secret)),
        )
    } else {
        (refusal(), issued)
    }
}

/// The reply to a request on a route other than the list, and the state
/// after it. `minted` is the id that a create would use.
pub open spec fn outcome(
    state: State,
    settings: SettingsView,
    request: RequestView,
    route: Route,
    now: u64,
    minted: u128,
) -> (ReplyView, State) {
    match route {
        Route::SpecificMeal(id) => (specific_meal_reply(fetch_of(state.meals, id)), state),
        Route::CreateMeal => match meal_brought(request) {
            Some(meal) => (
                create_meal_reply(meal.with_id(minted), WrittenView::Done),
                State { meals: state.meals.insert(minted, meal.with_id(minted)), ..state },
            ),
            None => (unauthed_reply(), state),
        },
        Route::UpdateMeal(id) => match meal_brought(request) {
            Some(meal) => (
                update_meal_reply(meal.with_id(id), WrittenView::Done),
                State { meals: state.meals.insert(id, meal.with_id(id)), ..state },
            ),
            None => (unauthed_reply(), state),
        },
        Route::DeleteMeal(id) => (
            delete_meal_reply(WrittenView::Done),
            State { meals: state.meals.remove(id), ..state },
        ),
        Route::Health => (healthy_reply(settings.gitbits), state),
        Route::Login => match login_brought(request) {
            Some(attempt) => {
                let (reply, issued) = login_outcome(state.issued, settings, attempt, now);
                (reply, State { issued, ..state })
            },
            None => (unauthed_reply(), state),
        },
        _ => (unauthed_reply(), state),
    }
}

/// `reply` answers a list request on `meals`: all of them, in some order.
pub open spec fn lists_all(reply: ReplyView, meals: Contents) -> bool {
    &&& reply.status == Status::Okay
    &&& reply.cookie is None
    &&& reply.hold_millis == 0
    &&& reply.body matches PayloadView::Meals(items) && lists(items, meals)
}

/// Whether `reply` and `after` are what the server answers and holds once
/// `request` has been handled in state `before`.
pub open spec fn handled(
    before: State,
    settings: SettingsView,
    request: RequestView,
    now: u64,
    minted: u128,
    reply: ReplyView,
    after: State,
) -> bool {
    let route = route_of(
        request.method,
        request.path,
        request.authorization,
        before.issued,
        settings.jwt_secret,
    );
    if route == Route::AllMeals {
        after == before && lists_all(reply, before.meals)
    } else {
        (reply, after) == outcome(before, settings, request, route, now, minted)
    }
}

/// The server: its settings, the meals, and the tokens it has issued.
pub struct Backend {
    pub settings: Settings,
    pub meals: MealTable,
    pub jwtdb: JwtDb,
}

impl View for Backend {
    type V = State;

    open spec fn view(&self) -> State {
        State { meals: self.meals@, issued: self.jwtdb@ }
    }
}

impl Backend {
    /// A server with no meals and no tokens issued.
    pub fn new(settings: Settings) -> (backend: Backend)
        ensures
            backend.settings == settings,
            backend@.meals == Map::<u128, MealView>::empty(),
            backend@.issued == Set::<Seq<char>>::empty(),
    {
        Backend { settings, meals: MealTable::new(), jwtdb: JwtDb::new() }
    }

    /// Handles one request at time `now`, with `minted` as the id for a
    /// meal that the request may create.
    pub fn handle_with(&mut self, request: Request, now: u64, minted: u128) -> (reply: Reply)
        ensures
            final(self).settings == old(self).settings,
            handled(old(self)@, old(self).settings@, request@, now, minted, reply@, final(self)@),
    {
        let route = meal_filters(
            request.method,
            &request.path,
            &request.authorization,
            &self.jwtdb,
            self.settings.secrets.jwt_secret.as_str(),
        );
        let step = dispatch_with(
            route,
            request.content_length,
            request.body,
            self.settings.gitbits.as_str(),
            minted,
        );
        match step {
            Step::Ask(ask) => {
                let answer = self.meals.perform(&ask);
                proof {
                    if let AnswerView::Listed(ListingView::Items(items)) = answer@ {
                        readable_scan_is_listed(items);
                    }
                }
                conclude(ask, answer)
            },
            Step::Login(attempt) => login(&mut self.jwtdb, attempt, &self.settings.secrets, now),
            Step::Reply(reply) => reply,
        }
    }

    /// Handles one request at time `now`. A meal that the request creates
    /// gets a newly minted id.
    pub fn handle(&mut self, request: Request, now: u64) -> (reply: Reply)
        ensures
            final(self).settings == old(self).settings,
            exists|minted: u128|
                is_random_uuid(minted) && #[trigger] handled(
                    old(self)@,
                    old(self).settings@,
                    request@,
                    now,
                    minted,
                    reply@,
                    final(self)@,
                ),
    {
        let minted = fresh_id();
        self.handle_with(request, now, minted)
    }
}

} // verus!
