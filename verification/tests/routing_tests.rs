use refeed_rampage::backend::auth::{login, Secrets};
use refeed_rampage::backend::backend_types::Login;
use refeed_rampage::backend::jwt_db::JwtDb;
use refeed_rampage::backend::reply::Payload;
use refeed_rampage::backend::routing::{
    body_admitted, meal_filters, select_route, Method, Route, BODY_LIMIT,
};

const ID_TEXT: &str = "f11b1c5e-d6d8-4dce-8a9d-9e05d870b881";
const ID: u128 = 0xf11b1c5e_d6d8_4dce_8a9d_9e05d870b881;
const SECRET: &str = "s3cr3t";

fn path(segments: &[&str]) -> Vec<String> {
    segments.iter().map(|s| s.to_string()).collect()
}

fn logged_in() -> (JwtDb, Option<String>) {
    let mut db = JwtDb::new();
    let secrets = Secrets { password: "pw".to_string(), jwt_secret: SECRET.to_string() };
    let attempt = Login { user: "matthew".to_string(), pw: "pw".to_string() };
    let reply = login(&mut db, attempt, &secrets, 1_700_000_000);
    let jwt = match reply.body {
        Payload::Login(resp) => resp.jwt,
        other => panic!("no token in {:?}", other),
    };
    (db, Some(format!("bearer: {}", jwt)))
}

#[test]
fn reading_routes_need_no_token() {
    let db = JwtDb::new();
    assert_eq!(meal_filters(Method::Get, &path(&["meals"]), &None, &db, SECRET), Route::AllMeals);
    assert_eq!(
        meal_filters(Method::Get, &path(&["meals", ID_TEXT]), &None, &db, SECRET),
        Route::SpecificMeal(ID)
    );
    assert_eq!(meal_filters(Method::Get, &path(&["health"]), &None, &db, SECRET), Route::Health);
    assert_eq!(meal_filters(Method::Post, &path(&["login"]), &None, &db, SECRET), Route::Login);
}

#[test]
fn an_id_is_read_in_every_format_of_a_uuid() {
    let db = JwtDb::new();
    for text in [
        "f11b1c5e-d6d8-4dce-8a9d-9e05d870b881",
        "F11B1C5E-D6D8-4DCE-8A9D-9E05D870B881",
        "f11b1c5ed6d84dce8a9d9e05d870b881",
        "urn:uuid:f11b1c5e-d6d8-4dce-8a9d-9e05d870b881",
    ] {
        assert_eq!(
            meal_filters(Method::Get, &path(&["meals", text]), &None, &db, SECRET),
            Route::SpecificMeal(ID)
        );
    }
    assert_eq!(
        meal_filters(
            Method::Get,
            &path(&["meals", "936DA01F9ABD4d9d80C702AF85C822A8"]),
            &None,
            &db,
            SECRET
        ),
        Route::SpecificMeal(0x936da01f_9abd_4d9d_80c7_02af85c822a8)
    );
}

#[test]
fn what_is_no_id_finds_no_route() {
    let db = JwtDb::new();
    for text in ["1", "", "f11b1c5e-d6d8-4dce-8a9d-9e05d870b88", "meals", "create"] {
        assert_eq!(
            meal_filters(Method::Get, &path(&["meals", text]), &None, &db, SECRET),
            Route::Unauthed
        );
    }
}

#[test]
fn changing_routes_need_an_issued_token() {
    let (db, header) = logged_in();
    assert_eq!(
        meal_filters(Method::Post, &path(&["meals"]), &header, &db, SECRET),
        Route::CreateMeal
    );
    assert_eq!(
        meal_filters(Method::Put, &path(&["meals", ID_TEXT]), &header, &db, SECRET),
        Route::UpdateMeal(ID)
    );
    assert_eq!(
        meal_filters(Method::Delete, &path(&["meals", ID_TEXT]), &header, &db, SECRET),
        Route::DeleteMeal(ID)
    );
}

#[test]
fn without_a_token_changing_routes_are_shut() {
    let (db, _) = logged_in();
    for header in [None, Some("bearer: nonsense".to_string()), Some(String::new())] {
        assert_eq!(
            meal_filters(Method::Post, &path(&["meals"]), &header, &db, SECRET),
            Route::Unauthed
        );
        assert_eq!(
            meal_filters(Method::Put, &path(&["meals", ID_TEXT]), &header, &db, SECRET),
            Route::Unauthed
        );
        assert_eq!(
            meal_filters(Method::Delete, &path(&["meals", ID_TEXT]), &header, &db, SECRET),
            Route::Unauthed
        );
    }
}

#[test]
fn a_token_of_another_process_is_turned_away() {
    let (_, header) = logged_in();
    let fresh = JwtDb::new();
    assert_eq!(
        meal_filters(Method::Delete, &path(&["meals", ID_TEXT]), &header, &fresh, SECRET),
        Route::Unauthed
    );
}

#[test]
fn everything_else_finds_no_route() {
    let (db, header) = logged_in();
    let cases: Vec<(Method, Vec<String>)> = vec![
        (Method::Get, path(&[])),
        (Method::Get, path(&["login"])),
        (Method::Post, path(&["health"])),
        (Method::Delete, path(&["meals"])),
        (Method::Put, path(&["meals"])),
        (Method::Post, path(&["meals", ID_TEXT])),
        (Method::Other, path(&["meals"])),
        (Method::Other, path(&["meals", ID_TEXT])),
        (Method::Get, path(&["meals", ID_TEXT, "edit"])),
        (Method::Get, path(&["Meals"])),
        (Method::Get, path(&["meal"])),
    ];
    for (method, segments) in cases {
        assert_eq!(meal_filters(method, &segments, &header, &db, SECRET), Route::Unauthed);
    }
}

#[test]
fn selecting_with_a_given_id_and_decision() {
    let meals = path(&["meals", "anything"]);
    assert_eq!(select_route(Method::Get, &meals, Some(7), false), Route::SpecificMeal(7));
    assert_eq!(select_route(Method::Delete, &meals, Some(7), true), Route::DeleteMeal(7));
    assert_eq!(select_route(Method::Delete, &meals, Some(7), false), Route::Unauthed);
    assert_eq!(select_route(Method::Put, &meals, Some(7), true), Route::UpdateMeal(7));
    assert_eq!(select_route(Method::Put, &meals, Some(7), false), Route::Unauthed);
    assert_eq!(select_route(Method::Put, &meals, None, true), Route::Unauthed);
    assert_eq!(select_route(Method::Post, &path(&["meals"]), None, true), Route::CreateMeal);
    assert_eq!(select_route(Method::Post, &path(&["meals"]), None, false), Route::Unauthed);
    assert_eq!(select_route(Method::Get, &path(&["meals"]), None, false), Route::AllMeals);
    assert_eq!(select_route(Method::Get, &path(&["health"]), None, false), Route::Health);
    assert_eq!(select_route(Method::Post, &path(&["login"]), None, false), Route::Login);
}

#[test]
fn bodies_are_read_up_to_sixteen_kibibytes() {
    assert_eq!(BODY_LIMIT, 16_384);
    assert!(body_admitted(Some(0)));
    assert!(body_admitted(Some(16_384)));
    assert!(!body_admitted(Some(16_385)));
    assert!(!body_admitted(Some(u64::MAX)));
    assert!(!body_admitted(None));
}
