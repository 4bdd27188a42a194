use refeed_rampage::frontend::frontend_types::{
    LoginInput, LoginResp, MealDeletedResponse, SortingOptions,
};
use refeed_rampage::frontend::model::{Command, Model, Msg, Order, Pages};
use refeed_rampage::frontend::update::{update, update_with};
use refeed_rampage::shared::Meal;

const ID: u128 = 0xf11b1c5e_d6d8_4dce_8a9d_9e05d870b881;
const ID_TEXT: &str = "f11b1c5e-d6d8-4dce-8a9d-9e05d870b881";

fn model() -> Model {
    Model::with_ids(1, 2)
}

fn meal(name: &str, stars: Option<i32>) -> Meal {
    Meal { name: name.to_string(), id: ID, photos: None, description: "good".to_string(), stars }
}

fn logged_in() -> Model {
    let mut m = model();
    m.auth = Some("tok".to_string());
    m
}

fn ready(mut m: Model) -> Model {
    m.meal_under_construction = meal("Wings", Some(3));
    m
}

fn path(segments: &[&str]) -> Vec<String> {
    segments.iter().map(|s| s.to_string()).collect()
}

#[test]
fn a_new_page_state() {
    let m = model();
    assert_eq!(m.meals, vec![]);
    assert_eq!(m.error, None);
    assert_eq!(m.page, Pages::Home);
    assert_eq!(m.login, None);
    assert_eq!(m.auth, None);
    assert_eq!(m.sort, None);
    assert_eq!(m.meal_under_construction, Meal { id: 1, ..Meal::default() });
    assert_eq!(m.meal, Meal { id: 2, ..Meal::default() });
    assert!(!m.meal_ready_to_submit());
    let d = Model::default();
    assert_ne!(d.meal.id, 0);
    assert_ne!(d.meal_under_construction.id, 0);
    assert_ne!(d.meal.id, d.meal_under_construction.id);
    assert_eq!(d.page, Pages::Home);
    assert_eq!(d.meal.name, "");
}

#[test]
fn the_form_is_ready_with_name_and_description() {
    let mut m = model();
    assert!(!m.meal_ready_to_submit());
    assert_eq!(update(Msg::MealCreateUpdateName("Wings".to_string()), &mut m), vec![]);
    assert!(!m.meal_ready_to_submit());
    assert_eq!(update(Msg::MealCreateUpdateDescription("mmm".to_string()), &mut m), vec![]);
    assert!(m.meal_ready_to_submit());
    assert_eq!(update(Msg::MealCreateUpdateStars(4), &mut m), vec![]);
    assert_eq!(
        m.meal_under_construction,
        Meal {
            name: "Wings".to_string(),
            id: 1,
            photos: None,
            description: "mmm".to_string(),
            stars: Some(4)
        }
    );
    assert_eq!(update(Msg::MealCreateUpdateName(String::new()), &mut m), vec![]);
    assert!(!m.meal_ready_to_submit());
}

#[test]
fn logout_forgets_the_token() {
    let mut m = logged_in();
    let orders = update(Msg::Logout, &mut m);
    assert_eq!(orders, vec![Order::StoreAuth(String::new())]);
    assert_eq!(m.auth, None);
}

#[test]
fn rehydrate_takes_the_kept_token_out_of_its_quotes() {
    let mut m = model();
    assert_eq!(update(Msg::Rehydrate { stored: Some("\"a.b.c\"".to_string()) }, &mut m), vec![]);
    assert_eq!(m.auth, Some("a.b.c".to_string()));
    let mut m = model();
    update(Msg::Rehydrate { stored: Some("\"\"".to_string()) }, &mut m);
    assert_eq!(m.auth, None);
    update(Msg::Rehydrate { stored: None }, &mut m);
    assert_eq!(m.auth, None);
    let mut m = logged_in();
    update(Msg::Rehydrate { stored: Some(String::new()) }, &mut m);
    assert_eq!(m.auth, Some("tok".to_string()));
    update(Msg::Rehydrate { stored: Some("plain".to_string()) }, &mut m);
    assert_eq!(m.auth, Some("plain".to_string()));
}

#[test]
fn change_sort_turns_falling_and_rising() {
    let mut m = model();
    m.meals = vec![
        meal("a", Some(3)),
        meal("b", None),
        meal("c", Some(5)),
        meal("d", Some(3)),
        meal("e", Some(1)),
    ];
    assert_eq!(update(Msg::ChangeSort, &mut m), vec![]);
    assert_eq!(m.sort, Some(SortingOptions::StarsDesc));
    let names: Vec<&str> = m.meals.iter().map(|x| x.name.as_str()).collect();
    assert_eq!(names, vec!["c", "d", "a", "e", "b"]);
    update(Msg::ChangeSort, &mut m);
    assert_eq!(m.sort, Some(SortingOptions::StarsAsc));
    let names: Vec<&str> = m.meals.iter().map(|x| x.name.as_str()).collect();
    assert_eq!(names, vec!["b", "e", "d", "a", "c"]);
    update(Msg::ChangeSort, &mut m);
    assert_eq!(m.sort, Some(SortingOptions::StarsDesc));
    let names: Vec<&str> = m.meals.iter().map(|x| x.name.as_str()).collect();
    assert_eq!(names, vec!["c", "a", "d", "e", "b"]);
}

#[test]
fn the_login_form() {
    let mut m = model();
    assert_eq!(update(Msg::LoginFromTxt, &mut m), vec![]);
    assert_eq!(update(Msg::LoginUserUpdated("matthew".to_string()), &mut m), vec![]);
    assert_eq!(m.login, Some(LoginInput { user: "matthew".to_string(), pw: String::new() }));
    update(Msg::LoginPwUpdated("pw".to_string()), &mut m);
    assert_eq!(m.login, Some(LoginInput { user: "matthew".to_string(), pw: "pw".to_string() }));
    update(Msg::LoginUserUpdated("m".to_string()), &mut m);
    assert_eq!(m.login, Some(LoginInput { user: "m".to_string(), pw: "pw".to_string() }));
    let orders = update(Msg::LoginFromTxt, &mut m);
    assert_eq!(orders, vec![Order::Send(Msg::Login { login: m.login.clone() })]);
    let mut m = model();
    update(Msg::LoginPwUpdated("pw".to_string()), &mut m);
    assert_eq!(m.login, Some(LoginInput { user: String::new(), pw: "pw".to_string() }));
}

#[test]
fn login_needs_a_filled_form() {
    let mut m = model();
    m.error = Some("old".to_string());
    assert_eq!(update(Msg::Login { login: None }, &mut m), vec![]);
    assert_eq!(m.error, Some("Please enter a username and password".to_string()));
    let form = LoginInput { user: "matthew".to_string(), pw: "pw".to_string() };
    let orders = update(Msg::Login { login: Some(form.clone()) }, &mut m);
    assert_eq!(orders, vec![Order::Skip, Order::Perform(Command::Login(form))]);
    assert_eq!(m.error, None);
}

#[test]
fn the_answer_to_a_login() {
    let mut m = model();
    m.error = Some("old".to_string());
    let orders = update(Msg::LoginResp(Ok(LoginResp { jwt: "a.b.c".to_string() })), &mut m);
    assert_eq!(
        orders,
        vec![
            Order::StoreAuth("a.b.c".to_string()),
            Order::PushRoute(path(&["meals"])),
            Order::Send(Msg::ChangePage(Pages::Meals)),
        ]
    );
    assert_eq!(m.auth, Some("a.b.c".to_string()));
    assert_eq!(m.error, None);
    let orders = update(Msg::LoginResp(Err("401".to_string())), &mut m);
    assert_eq!(orders, vec![]);
    assert_eq!(m.auth, None);
    assert_eq!(m.error, Some("Login failed.".to_string()));
}

#[test]
fn an_incomplete_meal_is_not_submitted() {
    for mut m in [model(), logged_in()] {
        let orders = update(Msg::CreateNewMeal(meal("Wings", None)), &mut m);
        assert_eq!(orders, vec![Order::Send(Msg::MealValidationError)]);
        assert_eq!(m.error, Some("provide a meal first".to_string()));
        let orders = update(Msg::MealValidationError, &mut m);
        assert_eq!(orders, vec![]);
        assert_eq!(m.error, Some("Fill out the fields please".to_string()));
        let orders = update(Msg::SaveMeal(meal("Wings", None)), &mut m);
        assert_eq!(orders, vec![Order::Send(Msg::MealValidationError)]);
        assert_eq!(m.error, Some("provide a meal first".to_string()));
    }
}

#[test]
fn submitting_without_a_session_leads_to_the_login() {
    let mut m = ready(model());
    let orders = update(Msg::CreateNewMeal(meal("Wings", None)), &mut m);
    assert_eq!(orders, vec![Order::Send(Msg::ChangePage(Pages::Login))]);
    let orders = update(Msg::SaveMeal(meal("Wings", None)), &mut m);
    assert_eq!(orders, vec![Order::Send(Msg::ChangePage(Pages::Login))]);
    let orders = update(Msg::DeleteMeal { meal_id: ID }, &mut m);
    assert_eq!(orders, vec![Order::Send(Msg::ChangePage(Pages::Login))]);
    assert_eq!(m.error, None);
}

#[test]
fn submitting_with_a_session_asks_the_server() {
    let mut m = ready(logged_in());
    let orders = update(Msg::CreateNewMeal(meal("Wings", None)), &mut m);
    assert_eq!(
        orders,
        vec![
            Order::Skip,
            Order::Perform(Command::CreateMeal {
                meal: meal("Wings", None),
                auth: "tok".to_string()
            }),
        ]
    );
    let orders = update(Msg::SaveMeal(meal("Wings", None)), &mut m);
    assert_eq!(
        orders,
        vec![
            Order::PushRoute(path(&["meals", ID_TEXT])),
            Order::Skip,
            Order::Perform(Command::UpdateMeal {
                meal: meal("Wings", None),
                auth: "tok".to_string()
            }),
        ]
    );
    let orders = update(Msg::DeleteMeal { meal_id: ID }, &mut m);
    assert_eq!(
        orders,
        vec![
            Order::Skip,
            Order::Perform(Command::DeleteMeal { id: ID, auth: "tok".to_string() }),
        ]
    );
}

#[test]
fn fetching() {
    let mut m = model();
    assert_eq!(
        update(Msg::EditMeal { meal_id: ID }, &mut m),
        vec![Order::Skip, Order::Perform(Command::FetchMeal { id: ID })]
    );
    assert_eq!(
        update(Msg::FetchData { meal_id: Some(ID) }, &mut m),
        vec![Order::Skip, Order::Perform(Command::FetchMeal { id: ID })]
    );
    assert_eq!(
        update(Msg::FetchData { meal_id: None }, &mut m),
        vec![Order::Skip, Order::Perform(Command::FetchMeals)]
    );
    assert_eq!(update(Msg::NoOp, &mut m), vec![]);
    assert_eq!(m, model());
}

#[test]
fn answers_from_the_server() {
    let mut m = model();
    m.error = Some("old".to_string());
    let orders = update(Msg::MealCreated(Ok(meal("Wings", None))), &mut m);
    assert_eq!(
        orders,
        vec![
            Order::PushRoute(path(&["meals", ID_TEXT])),
            Order::Send(Msg::ChangePage(Pages::ViewSpecificMeal { meal_id: ID })),
        ]
    );
    assert_eq!(m.error, None);
    assert_eq!(update(Msg::MealCreated(Err("boom".to_string())), &mut m), vec![]);
    assert_eq!(m.error, Some("Couldn't create meal: boom".to_string()));
    let orders = update(Msg::MealDeleted(Ok(MealDeletedResponse {})), &mut m);
    assert_eq!(
        orders,
        vec![Order::PushRoute(path(&["meals"])), Order::Send(Msg::ChangePage(Pages::Meals))]
    );
    let orders = update(Msg::MealDeleted(Err("boom".to_string())), &mut m);
    assert_eq!(
        orders,
        vec![Order::PushRoute(path(&["meals"])), Order::Send(Msg::ChangePage(Pages::Meals))]
    );
    let meals = vec![meal("a", Some(1)), meal("b", None)];
    assert_eq!(update(Msg::MealsFetched(Ok(meals.clone())), &mut m), vec![]);
    assert_eq!(m.meals, meals);
    assert_eq!(m.error, None);
    assert_eq!(update(Msg::MealsFetched(Err("boom".to_string())), &mut m), vec![]);
    assert_eq!(m.error, Some("Error fetching meals: boom".to_string()));
    assert_eq!(m.meals, meals);
    assert_eq!(update(Msg::MealFetched(Ok(meal("Wings", Some(2)))), &mut m), vec![]);
    assert_eq!(m.meals, vec![]);
    assert_eq!(m.meal, meal("Wings", Some(2)));
    assert_eq!(m.meal_under_construction, meal("Wings", Some(2)));
    assert_eq!(m.error, None);
    assert_eq!(update(Msg::MealFetched(Err("boom".to_string())), &mut m), vec![]);
    assert_eq!(m.error, Some("Error fetching meal: boom".to_string()));
    assert_eq!(m.meal, meal("Wings", Some(2)));
}

#[test]
fn changing_the_page() {
    let mut m = ready(model());
    assert_eq!(
        update(Msg::ChangePage(Pages::Meals), &mut m),
        vec![Order::Send(Msg::FetchData { meal_id: None })]
    );
    assert_eq!(m.page, Pages::Meals);
    assert_eq!(
        update(Msg::ChangePage(Pages::ViewSpecificMeal { meal_id: ID }), &mut m),
        vec![Order::Send(Msg::FetchData { meal_id: Some(ID) })]
    );
    assert_eq!(m.page, Pages::ViewSpecificMeal { meal_id: ID });
    assert_eq!(
        update(Msg::ChangePage(Pages::EditMeal { meal_id: ID }), &mut m),
        vec![Order::Send(Msg::FetchData { meal_id: Some(ID) })]
    );
    assert_eq!(m.page, Pages::EditMeal { meal_id: ID });
    assert_eq!(update(Msg::ChangePage(Pages::Home), &mut m), vec![]);
    assert_eq!(update(Msg::ChangePage(Pages::Login), &mut m), vec![]);
    assert_eq!(m.page, Pages::Login);
    assert_eq!(m.meal_under_construction, meal("Wings", Some(3)));
    assert_eq!(update_with(Msg::ChangePage(Pages::CreateMeal), &mut m, 99), vec![]);
    assert_eq!(m.page, Pages::CreateMeal);
    assert_eq!(m.meal_under_construction, Meal { id: 99, ..Meal::default() });
    m.meal_under_construction = meal("Wings", Some(3));
    assert_eq!(update(Msg::ChangePage(Pages::CreateMeal), &mut m), vec![]);
    assert_eq!(m.meal_under_construction.name, "");
    assert_ne!(m.meal_under_construction.id, 0);
    assert_ne!(m.meal_under_construction.id, ID);
}
