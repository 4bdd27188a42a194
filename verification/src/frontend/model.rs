//! The state of the page, the messages that change it, and what the page
//! asks of the browser in return.

use crate::backend::ids::{fresh_id, is_random_uuid};
use crate::frontend::frontend_types::{
    opt_login, LoginInput, LoginInputView, LoginResp, LoginRespView, MealDeletedResponse, MealMap,
    SortingOptions,
};
use crate::shared::{copy_opt_text, duplicate_all, meal_views, opt_text, Meal, MealView};
use crate::text::texts_of;
use vstd::prelude::*;

verus! {

/// The pages of the application.
#[derive(Debug, Clone, Copy, PartialEq, Eq, Structural)]
pub enum Pages {
    Home,
    Meals,
    ViewSpecificMeal { meal_id: u128 },
    EditMeal { meal_id: u128 },
    CreateMeal,
    Login,
}

/// The state of the page.
#[derive(Debug, Clone, PartialEq, Eq)]
pub struct Model {
    /// The meals of the list page.
    pub meals: MealMap,
    /// The meal in the form.
    pub meal_under_construction: Meal,
    /// The meal of the detail page.
    pub meal: Meal,
    /// What to tell the user went wrong, if anything.
    pub error: Option<String>,
    pub page: Pages,
    /// What the login form holds, once something was typed.
    pub login: Option<LoginInput>,
    /// The session token, while logged in.
    pub auth: Option<String>,
    pub sort: Option<SortingOptions>,
}

pub struct ModelView {
    pub meals: Seq<MealView>,
    pub meal_under_construction: MealView,
    pub meal: MealView,
    pub error: Option<Seq<char>>,
    pub page: Pages,
    pub login: Option<LoginInputView>,
    pub auth: Option<Seq<char>>,
    pub sort: Option<SortingOptions>,
}

impl View for Model {
    type V = ModelView;

    open spec fn view(&self) -> ModelView {
        ModelView {
            meals: meal_views(self.meals@),
            meal_under_construction: self.meal_under_construction@,
            meal: self.meal@,
            error: opt_text(self.error),
            page: self.page,
            login: opt_login(self.login),
            auth: opt_text(self.auth),
            sort: self.sort,
        }
    }
}

impl ModelView {
    /// The state of a page that was just opened, with the given ids for the
    /// meal of the form and the meal of the detail page.
    pub open spec fn fresh(form_id: u128, detail_id: u128) -> ModelView {
        ModelView {
            meals: Seq::empty(),
            meal_under_construction: MealView::blank().with_id(form_id),
            meal: MealView::blank().with_id(detail_id),
            error: None,
            page: Pages::Home,
            login: None,
            auth: None,
            sort: None,
        }
    }

    /// The meal in the form may be submitted once it has a name and a description.
    pub open spec fn meal_ready_to_submit(self) -> bool {
        self.meal_under_construction.ready_to_submit()
    }
}

impl Model {
    /// The state of a page that was just opened, with the given ids for the
    /// meal of the form and the meal of the detail page.
    pub fn with_ids(form_id: u128, detail_id: u128) -> (model: Model)
        ensures
            model@ == ModelView::fresh(form_id, detail_id),
    {
        let model = Model {
            meals: Vec::new(),
            meal_under_construction: Meal::default().with_id(form_id),
            meal: Meal::default().with_id(detail_id),
            error: None,
            page: Pages::Home,
            login: None,
            auth: None,
            sort: None,
        };
        proof {
            assert(meal_views(model.meals@) == Seq::<MealView>::empty());
        }
        model
    }

    /// Whether the meal in the form has both a name and a description.
    pub fn meal_ready_to_submit(&self) -> (ready: bool)
        ensures
            ready == self@.meal_ready_to_submit(),
    {
        self.meal_under_construction.ready_to_submit()
    }
}

impl Default for Model {
    /// The state of a page that was just opened. The two meals that it
    /// holds get newly minted ids.
    fn default() -> (model: Model)
        ensures
            exists|form_id: u128, detail_id: u128|
                is_random_uuid(form_id) && is_random_uuid(detail_id) && model@
                    == #[trigger] ModelView::fresh(form_id, detail_id),
    {
        let form_id = fresh_id();
        let detail_id = fresh_id();
        Model::with_ids(form_id, detail_id)
    }
}

/// What a request to the server came to: the answer, or the failure as text.
pub type Fetched<T> = Result<T, String>;

/// What makes the page change.
#[derive(Debug, PartialEq, Eq)]
#[allow(inconsistent_fields)]
pub enum Msg {
    NoOp,
    EditMeal { meal_id: u128 },
    MealCreateUpdateName(String),
    MealCreateUpdateDescription(String),
    MealCreateUpdateStars(i32),
    CreateNewMeal(Meal),
    SaveMeal(Meal),
    MealValidationError,
    MealCreated(Fetched<Meal>),
    DeleteMeal { meal_id: u128 },
    MealDeleted(Fetched<MealDeletedResponse>),
    ChangePage(Pages),
    FetchData { meal_id: Option<u128> },
    MealsFetched(Fetched<MealMap>),
    MealFetched(Fetched<Meal>),
    LoginUserUpdated(String),
    LoginPwUpdated(String),
    Login { login: Option<LoginInput> },
    Logout,
    LoginResp(Fetched<LoginResp>),
    LoginFromTxt,
    ChangeSort,
    /// The page was opened; `stored` is the token that the browser kept from
    /// an earlier visit, as it stands in its storage, if it could be read.
    Rehydrate { stored: Option<String> },
}

#[allow(inconsistent_fields)]
pub enum MsgView {
    NoOp,
    EditMeal { meal_id: u128 },
    MealCreateUpdateName(Seq<char>),
    MealCreateUpdateDescription(Seq<char>),
    MealCreateUpdateStars(i32),
    CreateNewMeal(MealView),
    SaveMeal(MealView),
    MealValidationError,
    MealCreated(Result<MealView, Seq<char>>),
    DeleteMeal { meal_id: u128 },
    MealDeleted(Result<MealDeletedResponse, Seq<char>>),
    ChangePage(Pages),
    FetchData { meal_id: Option<u128> },
    MealsFetched(Result<Seq<MealView>, Seq<char>>),
    MealFetched(Result<MealView, Seq<char>>),
    LoginUserUpdated(Seq<char>),
    LoginPwUpdated(Seq<char>),
    Login { login: Option<LoginInputView> },
    Logout,
    LoginResp(Result<LoginRespView, Seq<char>>),
    LoginFromTxt,
    ChangeSort,
    Rehydrate { stored: Option<Seq<char>> },
}

/// What came of a request for one meal, as mathematical values.
pub open spec fn fetched_meal(fetched: Fetched<Meal>) -> Result<MealView, Seq<char>> {
    match fetched {
        Ok(meal) => Ok(meal@),
        Err(reason) => Err(reason@),
    }
}

/// What came of a request for all meals, as mathematical values.
pub open spec fn fetched_meals(fetched: Fetched<MealMap>) -> Result<Seq<MealView>, Seq<char>> {
    match fetched {
        Ok(meals) => Ok(meal_views(meals@)),
        Err(reason) => Err(reason@),
    }
}

/// What came of a delete, as mathematical values.
pub open spec fn fetched_deletion(fetched: Fetched<MealDeletedResponse>) -> Result<
    MealDeletedResponse,
    Seq<char>,
> {
    match fetched {
        Ok(gone) => Ok(gone),
        Err(reason) => Err(reason@),
    }
}

/// What came of a login, as mathematical values.
pub open spec fn fetched_login(fetched: Fetched<LoginResp>) -> Result<LoginRespView, Seq<char>> {
    match fetched {
        Ok(resp) => Ok(resp@),
        Err(reason) => Err(reason@),
    }
}

impl View for Msg {
    type V = MsgView;

    open spec fn view(&self) -> MsgView {
        match self {
            Msg::NoOp => MsgView::NoOp,
            Msg::EditMeal { meal_id } => MsgView::EditMeal { meal_id: *meal_id },
            Msg::MealCreateUpdateName(name) => MsgView::MealCreateUpdateName(name@),
            Msg::MealCreateUpdateDescription(text) => MsgView::MealCreateUpdateDescription(text@),
            Msg::MealCreateUpdateStars(stars) => MsgView::MealCreateUpdateStars(*stars),
            Msg::CreateNewMeal(meal) => MsgView::CreateNewMeal(meal@),
            Msg::SaveMeal(meal) => MsgView::SaveMeal(meal@),
            Msg::MealValidationError => MsgView::MealValidationError,
            Msg::MealCreated(fetched) => MsgView::MealCreated(fetched_meal(*fetched)),
            Msg::DeleteMeal { meal_id } => MsgView::DeleteMeal { meal_id: *meal_id },
            Msg::MealDeleted(fetched) => MsgView::MealDeleted(fetched_deletion(*fetched)),
            Msg::ChangePage(page) => MsgView::ChangePage(*page),
            Msg::FetchData { meal_id } => MsgView::FetchData { meal_id: *meal_id },
            Msg::MealsFetched(fetched) => MsgView::MealsFetched(fetched_meals(*fetched)),
            Msg::MealFetched(fetched) => MsgView::MealFetched(fetched_meal(*fetched)),
            Msg::LoginUserUpdated(user) => MsgView::LoginUserUpdated(user@),
            Msg::LoginPwUpdated(pw) => MsgView::LoginPwUpdated(pw@),
            Msg::Login { login } => MsgView::Login { login: opt_login(*login) },
            Msg::Logout => MsgView::Logout,
            Msg::LoginResp(fetched) => MsgView::LoginResp(fetched_login(*fetched)),
            Msg::LoginFromTxt => MsgView::LoginFromTxt,
            Msg::ChangeSort => MsgView::ChangeSort,
            Msg::Rehydrate { stored } => MsgView::Rehydrate { stored: opt_text(*stored) },
        }
    }
}

impl Msg {
    /// A copy that holds the same values.
    pub fn duplicate(&self) -> (copy: Msg)
        ensures
            copy@ == self@,
    {
        match self {
            Msg::NoOp => Msg::NoOp,
            Msg::EditMeal { meal_id } => Msg::EditMeal { meal_id: *meal_id },
            Msg::MealCreateUpdateName(name) => Msg::MealCreateUpdateName(name.clone()),
            Msg::MealCreateUpdateDescription(text) => Msg::MealCreateUpdateDescription(
                text.clone(),
            ),
            Msg::MealCreateUpdateStars(stars) => Msg::MealCreateUpdateStars(*stars),
            Msg::CreateNewMeal(meal) => Msg::CreateNewMeal(meal.duplicate()),
            Msg::SaveMeal(meal) => Msg::SaveMeal(meal.duplicate()),
            Msg::MealValidationError => Msg::MealValidationError,
            Msg::MealCreated(fetched) => Msg::MealCreated(
                match fetched {
                    Ok(meal) => Ok(meal.duplicate()),
                    Err(reason) => Err(reason.clone()),
                },
            ),
            Msg::DeleteMeal { meal_id } => Msg::DeleteMeal { meal_id: *meal_id },
            Msg::MealDeleted(fetched) => Msg::MealDeleted(
                match fetched {
                    Ok(gone) => Ok(*gone),
                    Err(reason) => Err(reason.clone()),
                },
            ),
            Msg::ChangePage(page) => Msg::ChangePage(*page),
            Msg::FetchData { meal_id } => Msg::FetchData { meal_id: *meal_id },
            Msg::MealsFetched(fetched) => Msg::MealsFetched(
                match fetched {
                    Ok(meals) => Ok(duplicate_all(meals)),
                    Err(reason) => Err(reason.clone()),
                },
            ),
            Msg::MealFetched(fetched) => Msg::MealFetched(
                match fetched {
                    Ok(meal) => Ok(meal.duplicate()),
                    Err(reason) => Err(reason.clone()),
                },
            ),
            Msg::LoginUserUpdated(user) => Msg::LoginUserUpdated(user.clone()),
            Msg::LoginPwUpdated(pw) => Msg::LoginPwUpdated(pw.clone()),
            Msg::Login { login } => Msg::Login {
                login: match login {
                    Some(form) => Some(form.duplicate()),
                    None => None,
                },
            },
            Msg::Logout => Msg::Logout,
            Msg::LoginResp(fetched) => Msg::LoginResp(
                match fetched {
                    Ok(resp) => Ok(LoginResp { jwt: resp.jwt.clone() }),
                    Err(reason) => Err(reason.clone()),
                },
            ),
            Msg::LoginFromTxt => Msg::LoginFromTxt,
            Msg::ChangeSort => Msg::ChangeSort,
            Msg::Rehydrate { stored } => Msg::Rehydrate { stored: copy_opt_text(stored) },
        }
    }
}

impl Clone for Msg {
    fn clone(&self) -> (copy: Msg)
        ensures
            copy@ == self@,
    {
        self.duplicate()
    }
}

/// A request that the page makes of the server.
#[derive(Debug, Clone, PartialEq, Eq)]
pub enum Command {
    Login(LoginInput),
    UpdateMeal { meal: Meal, auth: String },
    FetchMeal { id: u128 },
    FetchMeals,
    DeleteMeal { id: u128, auth: String },
    CreateMeal { meal: Meal, auth: String },
}

pub enum CommandView {
    Login(LoginInputView),
    UpdateMeal { meal: MealView, auth: Seq<char> },
    FetchMeal { id: u128 },
    FetchMeals,
    DeleteMeal { id: u128, auth: Seq<char> },
    CreateMeal { meal: MealView, auth: Seq<char> },
}

impl View for Command {
    type V = CommandView;

    open spec fn view(&self) -> CommandView {
        match self {
            Command::Login(login) => CommandView::Login(login@),
            Command::UpdateMeal { meal, auth } => CommandView::UpdateMeal {
                meal: meal@,
                auth: auth@,
            },
            Command::FetchMeal { id } => CommandView::FetchMeal { id: *id },
            Command::FetchMeals => CommandView::FetchMeals,
            Command::DeleteMeal { id, auth } => CommandView::DeleteMeal { id: *id, auth: auth@ },
            Command::CreateMeal { meal, auth } => CommandView::CreateMeal {
                meal: meal@,
                auth: auth@,
            },
        }
    }
}

/// What the page asks of the browser after a message.
#[derive(Debug, Clone, PartialEq, Eq)]
pub enum Order {
    /// Do not draw the page again for this message.
    Skip,
    /// Deliver this message next.
    Send(Msg),
    /// Make this request of the server.
    Perform(Command),
    /// Show this path in the address bar.
    PushRoute(Vec<String>),
    /// Keep this token in the browser's storage.
    StoreAuth(String),
}

pub enum OrderView {
    Skip,
    Send(MsgView),
    Perform(CommandView),
    PushRoute(Seq<Seq<char>>),
    StoreAuth(Seq<char>),
}

impl View for Order {
    type V = OrderView;

    open spec fn view(&self) -> OrderView {
        match self {
            Order::Skip => OrderView::Skip,
            Order::Send(msg) => OrderView::Send(msg@),
            Order::Perform(command) => OrderView::Perform(command@),
            Order::PushRoute(path) => OrderView::PushRoute(texts_of(path@)),
            Order::StoreAuth(token) => OrderView::StoreAuth(token@),
        }
    }
}

/// The views of a run of orders, in the same order.
pub open spec fn order_views(orders: Seq<Order>) -> Seq<OrderView> {
    orders.map_values(|o: Order| o@)
}

} // verus!
