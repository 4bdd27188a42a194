//! The requests that the page makes of the server.

use crate::backend::auth::bearer_header;
use crate::backend::ids::{id_text, uuid_text};
use crate::backend::routing::Method;
use crate::frontend::frontend_types::{LoginInput, LoginInputView};
use crate::frontend::model::{Command, CommandView};
use crate::shared::{opt_text, Meal, MealView};
use crate::text::{remove_char, without};
use vstd::prelude::*;
use vstd::string::StringExecFns;

verus! {

/// What a request carries as its body.
#[derive(Debug, Clone, PartialEq, Eq)]
pub enum Sent {
    Nothing,
    Meal(Meal),
    Login(LoginInput),
}

pub enum SentView {
    Nothing,
    Meal(MealView),
    Login(LoginInputView),
}

impl View for Sent {
    type V = SentView;

    open spec fn view(&self) -> SentView {
        match self {
            Sent::Nothing => SentView::Nothing,
            Sent::Meal(meal) => SentView::Meal(meal@),
            Sent::Login(login) => SentView::Login(login@),
        }
    }
}

/// The message that the answer to a request comes back in.
#[derive(Debug, Clone, Copy, PartialEq, Eq, Structural)]
pub enum Answer {
    MealDeleted,
    MealsFetched,
    MealCreated,
    LoginResp,
    MealFetched,
}

/// A request to the server.
#[derive(Debug, Clone, PartialEq, Eq)]
pub struct ApiRequest {
    pub method: Method,
    pub url: String,
    /// The `Authorization` header, where the request has one.
    pub authorization: Option<String>,
    pub body: Sent,
    pub answer: Answer,
}

pub struct ApiRequestView {
    pub method: Method,
    pub url: Seq<char>,
    pub authorization: Option<Seq<char>>,
    pub body: SentView,
    pub answer: Answer,
}

impl View for ApiRequest {
    type V = ApiRequestView;

    open spec fn view(&self) -> ApiRequestView {
        ApiRequestView {
            method: self.method,
            url: self.url@,
            authorization: opt_text(self.authorization),
            body: self.body@,
            answer: self.answer,
        }
    }
}

/// The address of the list of meals, under a base address that may hold
/// line breaks.
pub open spec fn meals_url(url_base: Seq<char>) -> Seq<char> {
    without(url_base, '\n') + "/meals"@
}

/// The address of one meal.
pub open spec fn meal_url(url_base: Seq<char>, id: u128) -> Seq<char> {
    without(url_base, '\n') + "/meals/"@ + uuid_text(id)
}

/// The address of the login.
pub open spec fn login_url(url_base: Seq<char>) -> Seq<char> {
    without(url_base, '\n') + "/login"@
}

/// The request that a command stands for.
pub open spec fn request_of(url_base: Seq<char>, command: CommandView) -> ApiRequestView {
    match command {
        CommandView::DeleteMeal { id, auth } => ApiRequestView {
            method: Method::Delete,
            url: meal_url(url_base, id),
            authorization: Some(bearer_header(auth)),
            body: SentView::Nothing,
            answer: Answer::MealDeleted,
        },
        CommandView::FetchMeals => ApiRequestView {
            method: Method::Get,
            url: meals_url(url_base),
            authorization: None,
            body: SentView::Nothing,
            answer: Answer::MealsFetched,
        },
        CommandView::CreateMeal { meal, auth } => ApiRequestView {
            method: Method::Post,
            url: meals_url(url_base),
            authorization: Some(bearer_header(auth)),
            body: SentView::Meal(meal),
            answer: Answer::MealCreated,
        },
        CommandView::Login(login) => ApiRequestView {
            method: Method::Post,
            url: login_url(url_base),
            authorization: None,
            body: SentView::Login(login),
            answer: Answer::LoginResp,
        },
        CommandView::UpdateMeal { meal, auth } => ApiRequestView {
            method: Method::Put,
            url: meal_url(url_base, meal.id),
            authorization: Some(bearer_header(auth)),
            body: SentView::Meal(meal),
            answer: Answer::MealCreated,
        },
        CommandView::FetchMeal { id } => ApiRequestView {
            method: Method::Get,
            url: meal_url(url_base, id),
            authorization: None,
            body: SentView::Nothing,
            answer: Answer::MealFetched,
        },
    }
}

/// The base address followed by a path.
fn under(url_base: &str, path: &str) -> (url: String)
    ensures
        url@ == without(url_base@, '\n') + path@,
{
    let mut url = remove_char(url_base, '\n');
    url.append(path);
    url
}

/// The address of one meal.
fn address_of(url_base: &str, id: u128) -> (url: String)
    ensures
        url@ == meal_url(url_base@, id),
{
    let mut url = under(url_base, "/meals/");
    url.append(id_text(id).as_str());
    url
}

/// The header that presents a token.
fn bearer(auth: &str) -> (header: String)
    ensures
        header@ == bearer_header(auth@),
{
    let mut header = String::from_str("bearer: ");
    header.append(auth);
    header
}

/// The request that deletes a meal.
pub fn delete_meal(url_base: &str, id: u128, auth: String) -> (request: ApiRequest)
    ensures
        request@ == request_of(url_base@, CommandView::DeleteMeal { id, auth: auth@ }),
{
    ApiRequest {
        method: Method::Delete,
        url: address_of(url_base, id),
        authorization: Some(bearer(auth.as_str())),
        body: Sent::Nothing,
        answer: Answer::MealDeleted,
    }
}

/// The request for all meals.
pub fn fetch_meals(url_base: &str) -> (request: ApiRequest)
    ensures
        request@ == request_of(url_base@, CommandView::FetchMeals),
{
    ApiRequest {
        method: Method::Get,
        url: under(url_base, "/meals"),
        authorization: None,
        body: Sent::Nothing,
        answer: Answer::MealsFetched,
    }
}

/// The request that creates a meal.
pub fn create_meal(url_base: &str, meal: Meal, auth: String) -> (request: ApiRequest)
    ensures
        request@ == request_of(url_base@, CommandView::CreateMeal { meal: meal@, auth: auth@ }),
{
    ApiRequest {
        method: Method::Post,
        url: under(url_base, "/meals"),
        authorization: Some(bearer(auth.as_str())),
        body: Sent::Meal(meal),
        answer: Answer::MealCreated,
    }
}

/// The request that logs in.
pub fn login(url_base: &str, form: LoginInput) -> (request: ApiRequest)
    ensures
        request@ == request_of(url_base@, CommandView::Login(form@)),
{
    ApiRequest {
        method: Method::Post,
        url: under(url_base, "/login"),
        authorization: None,
        body: Sent::Login(form),
        answer: Answer::LoginResp,
    }
}

/// The request that replaces a meal. Its answer is read as that to a create.
pub fn update_meal(url_base: &str, meal: Meal, auth: String) -> (request: ApiRequest)
    ensures
        request@ == request_of(url_base@, CommandView::UpdateMeal { meal: meal@, auth: auth@ }),
{
    ApiRequest {
        method: Method::Put,
        url: address_of(url_base, meal.id),
        authorization: Some(bearer(auth.as_str())),
        body: Sent::Meal(meal),
        answer: Answer::MealCreated,
    }
}

/// The request for one meal.
pub fn fetch_meal(url_base: &str, id: u128) -> (request: ApiRequest)
    ensures
        request@ == request_of(url_base@, CommandView::FetchMeal { id }),
{
    ApiRequest {
        method: Method::Get,
        url: address_of(url_base, id),
        authorization: None,
        body: Sent::Nothing,
        answer: Answer::MealFetched,
    }
}

/// Turns a command of the page into the request to make.
pub fn perform(url_base: &str, command: Command) -> (request: ApiRequest)
    ensures
        request@ == request_of(url_base@, command@),
{
    match command {
        Command::DeleteMeal { id, auth } => delete_meal(url_base, id, auth),
        Command::FetchMeals => fetch_meals(url_base),
        Command::CreateMeal { meal, auth } => create_meal(url_base, meal, auth),
        Command::Login(form) => login(url_base, form),
        Command::UpdateMeal { meal, auth } => update_meal(url_base, meal, auth),
        Command::FetchMeal { id } => fetch_meal(url_base, id),
    }
}

} // verus!
