//! How a message changes the page.

use crate::backend::ids::{fresh_id, id_text, is_random_uuid, uuid_text};
use crate::frontend::frontend_types::{LoginInput, LoginInputView, SortingOptions};
use crate::frontend::model::{
    order_views, Command, CommandView, Model, ModelView, Msg, MsgView, Order, OrderView, Pages,
};
use crate::frontend::sorting::{by_stars, by_stars_desc, sort_by_stars, sort_by_stars_desc};
use crate::shared::{meal_views, Meal, MealView};
use crate::text::{remove_char, texts_of, without};
use vstd::prelude::*;
use vstd::string::StringExecFns;

verus! {

/// The path of the list page.
pub open spec fn meals_path() -> Seq<Seq<char>> {
    seq!["meals"@]
}

/// The path of the page of one meal.
pub open spec fn meal_path(id: u128) -> Seq<Seq<char>> {
    seq!["meals"@, uuid_text(id)]
}

/// The order that follows the current one when the rating column is clicked:
/// falling first, then rising and falling in turn.
pub open spec fn next_sort(sort: Option<SortingOptions>) -> SortingOptions {
    match sort {
        Some(SortingOptions::StarsDesc) => SortingOptions::StarsAsc,
        Some(SortingOptions::StarsAsc) => SortingOptions::StarsDesc,
        None => SortingOptions::StarsDesc,
    }
}

/// The meals in the given order.
pub open spec fn sorted_meals(meals: Seq<MealView>, sort: SortingOptions) -> Seq<MealView> {
    match sort {
        SortingOptions::StarsAsc => by_stars(meals),
        SortingOptions::StarsDesc => by_stars_desc(meals),
    }
}

/// The token that the browser kept, without the quotes it is stored in;
/// nothing where nothing is left of it.
pub open spec fn kept_token(stored: Option<Seq<char>>) -> Option<Seq<char>> {
    let text = match stored {
        Some(text) => without(text, '"'),
        None => Seq::empty(),
    };
    if text.len() == 0 {
        None
    } else {
        Some(text)
    }
}

/// The login form after its user field was typed into.
pub open spec fn with_user(login: Option<LoginInputView>, user: Seq<char>) -> LoginInputView {
    match login {
        Some(form) => LoginInputView { user, ..form },
        None => LoginInputView { user, pw: Seq::empty() },
    }
}

/// The login form after its password field was typed into.
pub open spec fn with_pw(login: Option<LoginInputView>, pw: Seq<char>) -> LoginInputView {
    match login {
        Some(form) => LoginInputView { pw, ..form },
        None => LoginInputView { user: Seq::empty(), pw },
    }
}

/// What comes of a request to submit the meal of the form: without a name
/// and a description nothing is sent and the user is told; without a
/// session the login page is shown; else `orders` go out.
pub open spec fn submitted(model: ModelView, orders: Seq<OrderView>) -> (
    ModelView,
    Seq<OrderView>,
) {
    if !model.meal_ready_to_submit() {
        (
            ModelView { error: Some("provide a meal first"@), ..model },
            seq![OrderView::Send(MsgView::MealValidationError)],
        )
    } else if model.auth is None {
        (model, seq![OrderView::Send(MsgView::ChangePage(Pages::Login))])
    } else {
        (model, orders)
    }
}

/// What is fetched when a page is entered.
pub open spec fn entering(page: Pages) -> Seq<OrderView> {
    match page {
        Pages::ViewSpecificMeal { meal_id } => seq![
            OrderView::Send(MsgView::FetchData { meal_id: Some(meal_id) }),
        ],
        Pages::Meals => seq![OrderView::Send(MsgView::FetchData { meal_id: None })],
        Pages::EditMeal { meal_id } => seq![
            OrderView::Send(MsgView::FetchData { meal_id: Some(meal_id) }),
        ],
        _ => Seq::empty(),
    }
}

/// The page after a message, and what it asks of the browser, in order.
/// `minted` is the id for a meal that the message may start.
pub open spec fn updated(model: ModelView, msg: MsgView, minted: u128) -> (
    ModelView,
    Seq<OrderView>,
) {
    match msg {
        MsgView::Logout => (
            ModelView { auth: None, ..model },
            seq![OrderView::StoreAuth(Seq::empty())],
        ),
        MsgView::Rehydrate { stored } => match kept_token(stored) {
            Some(token) => (ModelView { auth: Some(token), ..model }, Seq::empty()),
            None => (model, Seq::empty()),
        },
        MsgView::ChangeSort => {
            let sort = next_sort(model.sort);
            (
                ModelView { sort: Some(sort), meals: sorted_meals(model.meals, sort), ..model },
                Seq::empty(),
            )
        },
        MsgView::LoginFromTxt => match model.login {
            Some(form) => (model, seq![OrderView::Send(MsgView::Login { login: Some(form) })]),
            None => (model, Seq::empty()),
        },
        MsgView::NoOp => (model, Seq::empty()),
        MsgView::LoginResp(Ok(resp)) => (
            ModelView { error: None, auth: Some(resp.jwt), ..model },
            seq![
                OrderView::StoreAuth(resp.jwt),
                OrderView::PushRoute(meals_path()),
                OrderView::Send(MsgView::ChangePage(Pages::Meals)),
            ],
        ),
        MsgView::LoginResp(Err(_)) => (
            ModelView { error: Some("Login failed."@), auth: None, ..model },
            Seq::empty(),
        ),
        MsgView::Login { login: Some(form) } => (
            ModelView { error: None, ..model },
            seq![OrderView::Skip, OrderView::Perform(CommandView::Login(form))],
        ),
        MsgView::Login { login: None } => (
            ModelView { error: Some("Please enter a username and password"@), ..model },
            Seq::empty(),
        ),
        MsgView::LoginUserUpdated(user) => (
            ModelView { login: Some(with_user(model.login, user)), ..model },
            Seq::empty(),
        ),
        MsgView::LoginPwUpdated(pw) => (
            ModelView { login: Some(with_pw(model.login, pw)), ..model },
            Seq::empty(),
        ),
        MsgView::SaveMeal(meal) => submitted(
            model,
            seq![
                OrderView::PushRoute(meal_path(meal.id)),
                OrderView::Skip,
                OrderView::Perform(CommandView::UpdateMeal { meal, auth: model.auth->Some_0 }),
            ],
        ),
        MsgView::EditMeal { meal_id } => (
            model,
            seq![OrderView::Skip, OrderView::Perform(CommandView::FetchMeal { id: meal_id })],
        ),
        MsgView::MealDeleted(_) => (
            model,
            seq![
                OrderView::PushRoute(meals_path()),
                OrderView::Send(MsgView::ChangePage(Pages::Meals)),
            ],
        ),
        MsgView::DeleteMeal { meal_id } => match model.auth {
            None => (model, seq![OrderView::Send(MsgView::ChangePage(Pages::Login))]),
            Some(auth) => (
                model,
                seq![
                    OrderView::Skip,
                    OrderView::Perform(CommandView::DeleteMeal { id: meal_id, auth }),
                ],
            ),
        },
        MsgView::MealValidationError => (
            ModelView { error: Some("Fill out the fields please"@), ..model },
            Seq::empty(),
        ),
        MsgView::MealCreateUpdateName(name) => (
            ModelView {
                meal_under_construction: MealView { name, ..model.meal_under_construction },
                ..model
            },
            Seq::empty(),
        ),
        MsgView::MealCreateUpdateDescription(description) => (
            ModelView {
                meal_under_construction: MealView { description, ..model.meal_under_construction },
                ..model
            },
            Seq::empty(),
        ),
        MsgView::MealCreateUpdateStars(stars) => (
            ModelView {
                meal_under_construction: MealView {
                    stars: Some(stars),
                    ..model.meal_under_construction
                },
                ..model
            },
            Seq::empty(),
        ),
        MsgView::CreateNewMeal(meal) => submitted(
            model,
            seq![
                OrderView::Skip,
                OrderView::Perform(CommandView::CreateMeal { meal, auth: model.auth->Some_0 }),
            ],
        ),
        MsgView::MealCreated(Ok(meal)) => (
            ModelView { error: None, ..model },
            seq![
                OrderView::PushRoute(meal_path(meal.id)),
                OrderView::Send(MsgView::ChangePage(Pages::ViewSpecificMeal { meal_id: meal.id })),
            ],
        ),
        MsgView::MealCreated(Err(reason)) => (
            ModelView { error: Some("Couldn't create meal: "@ + reason), ..model },
            Seq::empty(),
        ),
        MsgView::FetchData { meal_id: Some(id) } => (
            model,
            seq![OrderView::Skip, OrderView::Perform(CommandView::FetchMeal { id })],
        ),
        MsgView::FetchData { meal_id: None } => (
            model,
            seq![OrderView::Skip, OrderView::Perform(CommandView::FetchMeals)],
        ),
        MsgView::MealsFetched(Ok(meals)) => (
            ModelView { meals, error: None, ..model },
            Seq::empty(),
        ),
        MsgView::MealsFetched(Err(reason)) => (
            ModelView { error: Some("Error fetching meals: "@ + reason), ..model },
            Seq::empty(),
        ),
        MsgView::MealFetched(Ok(meal)) => (
            ModelView {
                meals: Seq::empty(),
                meal,
                meal_under_construction: meal,
                error: None,
                ..model
            },
            Seq::empty(),
        ),
        MsgView::MealFetched(Err(reason)) => (
            ModelView { error: Some("Error fetching meal: "@ + reason), ..model },
            Seq::empty(),
        ),
        MsgView::ChangePage(page) => (
            ModelView {
                page,
                meal_under_construction: if page == Pages::CreateMeal {
                    MealView::blank().with_id(minted)
                } else {
                    model.meal_under_construction
                },
                ..model
            },
            entering(page),
        ),
    }
}

/// No orders.
fn none() -> (orders: Vec<Order>)
    ensures
        order_views(orders@) == Seq::<OrderView>::empty(),
{
    let orders: Vec<Order> = Vec::new();
    proof {
        assert(order_views(orders@) == Seq::<OrderView>::empty());
    }
    orders
}

/// One order.
fn one(first: Order) -> (orders: Vec<Order>)
    ensures
        order_views(orders@) == seq![first@],
{
    let mut orders: Vec<Order> = Vec::new();
    orders.push(first);
    proof {
        assert(order_views(orders@) == seq![first@]);
    }
    orders
}

/// Two orders.
fn two(first: Order, second: Order) -> (orders: Vec<Order>)
    ensures
        order_views(orders@) == seq![first@, second@],
{
    let mut orders: Vec<Order> = Vec::new();
    orders.push(first);
    orders.push(second);
    proof {
        assert(order_views(orders@) == seq![first@, second@]);
    }
    orders
}

/// Three orders.
fn three(first: Order, second: Order, third: Order) -> (orders: Vec<Order>)
    ensures
        order_views(orders@) == seq![first@, second@, third@],
{
    let mut orders: Vec<Order> = Vec::new();
    orders.push(first);
    orders.push(second);
    orders.push(third);
    proof {
        assert(order_views(orders@) == seq![first@, second@, third@]);
    }
    orders
}

/// The order to show the list page in the address bar.
fn push_meals() -> (order: Order)
    ensures
        order@ == OrderView::PushRoute(meals_path()),
{
    let mut path: Vec<String> = Vec::new();
    path.push(String::from_str("meals"));
    proof {
        assert(texts_of(path@) == meals_path());
    }
    Order::PushRoute(path)
}

/// The order to show the page of one meal in the address bar.
fn push_meal(id: u128) -> (order: Order)
    ensures
        order@ == OrderView::PushRoute(meal_path(id)),
{
    let mut path: Vec<String> = Vec::new();
    path.push(String::from_str("meals"));
    path.push(id_text(id));
    proof {
        assert(texts_of(path@) == meal_path(id));
    }
    Order::PushRoute(path)
}

/// The message with a text in front of it.
fn prefixed(prefix: &str, reason: &str) -> (text: String)
    ensures
        text@ == prefix@ + reason@,
{
    let mut text = String::from_str(prefix);
    text.append(reason);
    text
}

/// Handles a request to submit the meal of the form; `orders` go out where
/// the meal is complete and the user is logged in.
fn submit(model: &mut Model, orders: Vec<Order>) -> (out: Vec<Order>)
    ensures
        (final(model)@, order_views(out@)) == submitted(old(model)@, order_views(orders@)),
{
    if !model.meal_ready_to_submit() {
        model.error = Some(String::from_str("provide a meal first"));
        one(Order::Send(Msg::MealValidationError))
    } else if model.auth.is_none() {
        one(Order::Send(Msg::ChangePage(Pages::Login)))
    } else {
        orders
    }
}

/// The session token, or the empty text where there is none.
fn token_of(auth: &Option<String>) -> (token: String)
    ensures
        auth matches Some(t) ==> token@ == t@,
{
    match auth {
        Some(t) => t.clone(),
        None => String::new(),
    }
}

/// Applies a message to the page and returns what the page asks of the
/// browser, in order. `minted` is the id for the meal of the form when the
/// message opens the page that creates one.
pub fn update_with(msg: Msg, model: &mut Model, minted: u128) -> (orders: Vec<Order>)
    ensures
        (final(model)@, order_views(orders@)) == updated(old(model)@, msg@, minted),
{
    match msg {
        Msg::Logout => {
            model.auth = None;
            one(Order::StoreAuth(String::new()))
        },
        Msg::Rehydrate { stored } => {
            let text = match stored {
                Some(text) => remove_char(text.as_str(), '"'),
                None => String::new(),
            };
            if !text.as_str().is_empty() {
                model.auth = Some(text);
            }
            none()
        },
        Msg::ChangeSort => {
            let sort = match model.sort {
                Some(SortingOptions::StarsDesc) => SortingOptions::StarsAsc,
                Some(SortingOptions::StarsAsc) => SortingOptions::StarsDesc,
                None => SortingOptions::StarsDesc,
            };
            model.sort = Some(sort);
            let sorted = match sort {
                SortingOptions::StarsAsc => sort_by_stars(&model.meals),
                SortingOptions::StarsDesc => sort_by_stars_desc(&model.meals),
            };
            model.meals = sorted;
            none()
        },
        Msg::LoginFromTxt => match &model.login {
            Some(form) => one(Order::Send(Msg::Login { login: Some(form.duplicate()) })),
            None => none(),
        },
        Msg::NoOp => none(),
        Msg::LoginResp(Ok(resp)) => {
            model.error = None;
            model.auth = Some(resp.jwt.clone());
            three(
                Order::StoreAuth(resp.jwt),
                push_meals(),
                Order::Send(Msg::ChangePage(Pages::Meals)),
            )
        },
        Msg::LoginResp(Err(_)) => {
            model.error = Some(String::from_str("Login failed."));
            model.auth = None;
            none()
        },
        Msg::Login { login: Some(form) } => {
            model.error = None;
            two(Order::Skip, Order::Perform(Command::Login(form)))
        },
        Msg::Login { login: None } => {
            model.error = Some(String::from_str("Please enter a username and password"));
            none()
        },
        Msg::LoginUserUpdated(user) => {
            let form = match &model.login {
                Some(form) => LoginInput { user, pw: form.pw.clone() },
                None => LoginInput { user, pw: String::new() },
            };
            model.login = Some(form);
            none()
        },
        Msg::LoginPwUpdated(pw) => {
            let form = match &model.login {
                Some(form) => LoginInput { user: form.user.clone(), pw },
                None => LoginInput { user: String::new(), pw },
            };
            model.login = Some(form);
            none()
        },
        Msg::SaveMeal(meal) => {
            let auth = token_of(&model.auth);
            let orders = three(
                push_meal(meal.id),
                Order::Skip,
                Order::Perform(Command::UpdateMeal { meal, auth }),
            );
            submit(model, orders)
        },
        Msg::EditMeal { meal_id } => two(
            Order::Skip,
            Order::Perform(Command::FetchMeal { id: meal_id }),
        ),
        Msg::MealDeleted(_) => two(push_meals(), Order::Send(Msg::ChangePage(Pages::Meals))),
        Msg::DeleteMeal { meal_id } => match &model.auth {
            None => one(Order::Send(Msg::ChangePage(Pages::Login))),
            Some(auth) => two(
                Order::Skip,
                Order::Perform(Command::DeleteMeal { id: meal_id, auth: auth.clone() }),
            ),
        },
        Msg::MealValidationError => {
            model.error = Some(String::from_str("Fill out the fields please"));
            none()
        },
        Msg::MealCreateUpdateName(name) => {
            model.meal_under_construction.name = name;
            none()
        },
        Msg::MealCreateUpdateDescription(description) => {
            model.meal_under_construction.description = description;
            none()
        },
        Msg::MealCreateUpdateStars(stars) => {
            model.meal_under_construction.stars = Some(stars);
            none()
        },
        Msg::CreateNewMeal(meal) => {
            let auth = token_of(&model.auth);
            let orders = two(Order::Skip, Order::Perform(Command::CreateMeal { meal, auth }));
            submit(model, orders)
        },
        Msg::MealCreated(Ok(meal)) => {
            model.error = None;
            two(
                push_meal(meal.id),
                Order::Send(Msg::ChangePage(Pages::ViewSpecificMeal { meal_id: meal.id })),
            )
        },
        Msg::MealCreated(Err(reason)) => {
            model.error = Some(prefixed("Couldn't create meal: ", reason.as_str()));
            none()
        },
        Msg::FetchData { meal_id: Some(id) } => two(
            Order::Skip,
            Order::Perform(Command::FetchMeal { id }),
        ),
        Msg::FetchData { meal_id: None } => two(Order::Skip, Order::Perform(Command::FetchMeals)),
        Msg::MealsFetched(Ok(meals)) => {
            model.meals = meals;
            model.error = None;
            none()
        },
        Msg::MealsFetched(Err(reason)) => {
            model.error = Some(prefixed("Error fetching meals: ", reason.as_str()));
            none()
        },
        Msg::MealFetched(Ok(meal)) => {
            model.meals = Vec::new();
            model.meal_under_construction = meal.duplicate();
            model.meal = meal;
            model.error = None;
            proof {
                assert(meal_views(model.meals@) == Seq::<MealView>::empty());
            }
            none()
        },
        Msg::MealFetched(Err(reason)) => {
            model.error = Some(prefixed("Error fetching meal: ", reason.as_str()));
            none()
        },
        Msg::ChangePage(page) => {
            let orders = match page {
                Pages::ViewSpecificMeal { meal_id } => one(
                    Order::Send(Msg::FetchData { meal_id: Some(meal_id) }),
                ),
                Pages::Meals => one(Order::Send(Msg::FetchData { meal_id: None })),
                Pages::EditMeal { meal_id } => one(
                    Order::Send(Msg::FetchData { meal_id: Some(meal_id) }),
                ),
                _ => none(),
            };
            if page == Pages::CreateMeal {
                model.meal_under_construction = Meal::default().with_id(minted);
            }
            model.page = page;
            orders
        },
    }
}

/// Applies a message to the page and returns what the page asks of the
/// browser, in order. Where the message opens the page that creates a meal,
/// the meal of the form starts blank under a newly minted id.
pub fn update(msg: Msg, model: &mut Model) -> (orders: Vec<Order>)
    ensures
        exists|minted: u128|
            is_random_uuid(minted) && (final(model)@, order_views(orders@)) == #[trigger] updated(
                old(model)@,
                msg@,
                minted,
            ),
{
    let minted = fresh_id();
    update_with(msg, model, minted)
}

/// A meal without a name or a description is never sent to the server: the
/// page asks for no request, and tells the user.
pub proof fn incomplete_meal_is_not_submitted(model: ModelView, msg: MsgView, minted: u128)
    requires
        !model.meal_ready_to_submit(),
        msg is CreateNewMeal || msg is SaveMeal,
    ensures
        ({
            let (after, orders) = updated(model, msg, minted);
            &&& after.error is Some
            &&& after.meal_under_construction == model.meal_under_construction
            &&& forall|i: int| 0 <= i < orders.len() ==> !(#[trigger] orders[i] is Perform)
        }),
{
}

/// A request that changes meals goes out only with the token of the session.
pub proof fn changes_carry_the_session_token(model: ModelView, msg: MsgView, minted: u128)
    ensures
        ({
            let (after, orders) = updated(model, msg, minted);
            forall|i: int|
                0 <= i < orders.len() ==> match #[trigger] orders[i] {
                    OrderView::Perform(CommandView::CreateMeal { auth, .. }) => model.auth == Some(
                        auth,
                    ),
                    OrderView::Perform(CommandView::UpdateMeal { auth, .. }) => model.auth == Some(
                        auth,
                    ),
                    OrderView::Perform(CommandView::DeleteMeal { auth, .. }) => model.auth == Some(
                        auth,
                    ),
                    _ => true,
                }
        }),
{
}

} // verus!
