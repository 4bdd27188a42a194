use refeed_rampage::backend::auth::Secrets;
use refeed_rampage::backend::backend_types::{Health, Login};
use refeed_rampage::backend::reply::{Payload, Reply, Status};
use refeed_rampage::backend::routing::Method;
use refeed_rampage::backend::handlers::conclude;
use refeed_rampage::backend::routing::Route;
use refeed_rampage::backend::server::{
    body_read_by, dispatch, dispatch_with, Backend, Body, BodyKind, Request, Settings, Step,
};
use refeed_rampage::backend::startup::{BURRITOS_ID, PIZZA_ID};
use refeed_rampage::backend::store::{
    Answer, Ask, Fetched, Listing, MealTable, Scanned, Written,
};
use refeed_rampage::shared::Meal;

const NOW: u64 = 1_700_000_000;

fn backend() -> Backend {
    Backend::new(Settings {
        secrets: Secrets { password: "correct\n".to_string(), jwt_secret: "key\n".to_string() },
        gitbits: "v1.2.3-4-gabcdef\n".to_string(),
    })
}

fn request(method: Method, path: &[&str], auth: &Option<String>, body: Body) -> Request {
    let content_length = match body {
        Body::Other => None,
        _ => Some(64),
    };
    Request {
        method,
        path: path.iter().map(|s| s.to_string()).collect(),
        authorization: auth.clone(),
        content_length,
        body,
    }
}

fn log_in(backend: &mut Backend) -> Option<String> {
    let attempt = Login { user: "matthew".to_string(), pw: "correct".to_string() };
    let reply = backend.handle(request(Method::Post, &["login"], &None, Body::Login(attempt)), NOW);
    assert_eq!(reply.status, Status::Okay);
    match reply.body {
        Payload::Login(resp) => Some(format!("bearer: {}", resp.jwt)),
        other => panic!("no token in {:?}", other),
    }
}

fn payload(name: &str, description: &str) -> Meal {
    Meal {
        name: name.to_string(),
        id: 0,
        photos: None,
        description: description.to_string(),
        stars: None,
    }
}

fn created(reply: &Reply) -> Meal {
    assert_eq!(reply.status, Status::Created);
    match &reply.body {
        Payload::Meal(meal) => meal.clone(),
        other => panic!("no meal in {:?}", other),
    }
}

fn listed(backend: &mut Backend) -> Vec<Meal> {
    let reply = backend.handle(request(Method::Get, &["meals"], &None, Body::Other), NOW);
    assert_eq!(reply.status, Status::Okay);
    match reply.body {
        Payload::Meals(meals) => meals,
        other => panic!("no meals in {:?}", other),
    }
}

fn scanned(table: &MealTable) -> Vec<Meal> {
    match table.scan() {
        Listing::Items(items) => items
            .into_iter()
            .map(|item| match item {
                Scanned::Meal(meal) => meal,
                other => panic!("unreadable: {:?}", other),
            })
            .collect(),
        other => panic!("no listing: {:?}", other),
    }
}

fn id_text(id: u128) -> String {
    uuid::Uuid::from_u128(id).to_hyphenated().to_string()
}

#[test]
fn health_is_always_fine() {
    let mut b = backend();
    let reply = b.handle(request(Method::Get, &["health"], &None, Body::Other), NOW);
    assert_eq!(reply.status.code(), 200);
    assert_eq!(
        reply.body,
        Payload::Health(Health { healthy: true, version: "v1.2.3-4-gabcdef".to_string() })
    );
    let auth = log_in(&mut b);
    let reply = b.handle(request(Method::Get, &["health"], &auth, Body::Other), NOW);
    assert_eq!(reply.status.code(), 200);
}

#[test]
fn login_scenario() {
    let mut b = backend();
    let right = Login { user: "matthew".to_string(), pw: "correct".to_string() };
    let reply = b.handle(request(Method::Post, &["login"], &None, Body::Login(right)), NOW);
    assert_eq!(reply.status.code(), 200);
    match &reply.body {
        Payload::Login(resp) => assert!(!resp.jwt.is_empty()),
        other => panic!("no token in {:?}", other),
    }
    assert_eq!(reply.hold_millis, 0);
    let wrong = Login { user: "matthew".to_string(), pw: "incorrect".to_string() };
    let reply = b.handle(request(Method::Post, &["login"], &None, Body::Login(wrong)), NOW);
    assert_eq!(reply.status.code(), 401);
    assert_eq!(reply.body, Payload::Null);
    assert_eq!(reply.hold_millis, 1_000);
}

#[test]
fn create_scenario() {
    let mut b = backend();
    let auth = log_in(&mut b);
    let body = Body::Meal(payload("Wings", "mmm"));
    let reply = b.handle(request(Method::Post, &["meals"], &auth, body), NOW);
    assert_eq!(reply.status.code(), 201);
    let first = created(&reply);
    assert_eq!(first.name, "Wings");
    assert_eq!(first.description, "mmm");
    assert_ne!(first.id, 0);
    let body = Body::Meal(payload("Wings", "mmm"));
    let second = created(&b.handle(request(Method::Post, &["meals"], &auth, body), NOW));
    assert_ne!(second.id, 0);
    assert_ne!(second.id, first.id);
    assert_eq!(listed(&mut b).len(), 2);
}

#[test]
fn create_drops_the_id_of_the_client() {
    let mut b = backend();
    let auth = log_in(&mut b);
    let sent = Meal { id: 42, ..payload("Wings", "mmm") };
    let reply = b.handle_with(request(Method::Post, &["meals"], &auth, Body::Meal(sent)), NOW, 7);
    assert_eq!(created(&reply), Meal { id: 7, ..payload("Wings", "mmm") });
    assert_eq!(b.meals.get_item(7), Fetched::Found(Meal { id: 7, ..payload("Wings", "mmm") }));
    assert_eq!(b.meals.get_item(42), Fetched::Missing);
    let sent = Meal { id: 42, ..payload("Wings", "mmm") };
    let reply = b.handle(request(Method::Post, &["meals"], &auth, Body::Meal(sent)), NOW);
    assert_ne!(created(&reply).id, 42);
}

#[test]
fn delete_without_authorization_is_unauthorized() {
    let mut b = backend();
    b.prepopulate_db();
    let path = ["meals", "f11b1c5e-d6d8-4dce-8a9d-9e05d870b881"];
    let reply = b.handle(request(Method::Delete, &path, &None, Body::Other), NOW);
    assert_eq!(reply.status.code(), 401);
    assert_eq!(reply.body, Payload::Null);
    assert_eq!(listed(&mut b).len(), 2);
}

#[test]
fn delete_of_an_absent_id_succeeds() {
    let mut b = backend();
    let auth = log_in(&mut b);
    let path = ["meals", "f11b1c5e-d6d8-4dce-8a9d-9e05d870b881"];
    let reply = b.handle(request(Method::Delete, &path, &auth, Body::Other), NOW);
    assert_eq!(reply.status.code(), 204);
    assert_eq!(reply.body, Payload::Nothing);
    let reply = b.handle(request(Method::Delete, &path, &auth, Body::Other), NOW);
    assert_eq!(reply.status.code(), 204);
}

#[test]
fn get_of_an_absent_id_is_not_found() {
    let mut b = backend();
    let path = ["meals", "f11b1c5e-d6d8-4dce-8a9d-9e05d870b881"];
    let reply = b.handle(request(Method::Get, &path, &None, Body::Other), NOW);
    assert_eq!(reply.status.code(), 404);
    assert_eq!(reply.body, Payload::Null);
}

#[test]
fn get_of_a_seed_meal() {
    let mut b = backend();
    b.prepopulate_db();
    let path = ["meals", "f11b1c5e-d6d8-4dce-8a9d-9e05d870b881"];
    let reply = b.handle(request(Method::Get, &path, &None, Body::Other), NOW);
    assert_eq!(reply.status.code(), 200);
    match reply.body {
        Payload::Meal(meal) => {
            assert_eq!(meal.id, BURRITOS_ID);
            assert_eq!(meal.name, "Burritos");
            assert!(!meal.description.is_empty());
            assert!(meal.stars.is_some());
        },
        other => panic!("no meal in {:?}", other),
    }
}

#[test]
fn listing_counts_creates_less_deletes() {
    let mut b = backend();
    let auth = log_in(&mut b);
    let mut ids = Vec::new();
    for n in 0..5 {
        let body = Body::Meal(payload(&format!("meal {}", n), "tasty"));
        let reply = b.handle(request(Method::Post, &["meals"], &auth, body), NOW);
        ids.push(created(&reply).id);
    }
    assert_eq!(listed(&mut b).len(), 5);
    for id in &ids[0..2] {
        let text = id_text(*id);
        let reply = b.handle(request(Method::Delete, &["meals", &text], &auth, Body::Other), NOW);
        assert_eq!(reply.status.code(), 204);
    }
    let left = listed(&mut b);
    assert_eq!(left.len(), 3);
    let mut left_ids: Vec<u128> = left.iter().map(|m| m.id).collect();
    left_ids.sort();
    let mut expected: Vec<u128> = ids[2..].to_vec();
    expected.sort();
    assert_eq!(left_ids, expected);
    // deleting again does not count again
    let text = id_text(ids[0]);
    let reply = b.handle(request(Method::Delete, &["meals", &text], &auth, Body::Other), NOW);
    assert_eq!(reply.status.code(), 204);
    assert_eq!(listed(&mut b).len(), 3);
    // nor does deleting an id that was never created
    let stray = id_text(0x1234_5678_9abc_4def_8123_4567_89ab_cdef);
    let reply = b.handle(request(Method::Delete, &["meals", &stray], &auth, Body::Other), NOW);
    assert_eq!(reply.status.code(), 204);
    assert_eq!(listed(&mut b).len(), 3);
    assert_eq!(b.meals.len(), 3);
}

#[test]
fn update_replaces_under_the_id_of_the_path() {
    let mut b = backend();
    b.prepopulate_db();
    let auth = log_in(&mut b);
    let path = ["meals", "936da01f-9abd-4d9d-80c7-02af85c822a8"];
    let sent = Meal { id: 5, stars: Some(1), ..payload("Cold pizza", "meh") };
    let reply = b.handle(request(Method::Put, &path, &auth, Body::Meal(sent)), NOW);
    assert_eq!(reply.status.code(), 202);
    let stored = Meal { id: PIZZA_ID, stars: Some(1), ..payload("Cold pizza", "meh") };
    assert_eq!(reply.body, Payload::Meal(stored.clone()));
    assert_eq!(b.meals.get_item(PIZZA_ID), Fetched::Found(stored));
    assert_eq!(b.meals.get_item(5), Fetched::Missing);
    assert_eq!(listed(&mut b).len(), 2);
}

#[test]
fn update_of_an_absent_id_creates() {
    let mut b = backend();
    let auth = log_in(&mut b);
    let path = ["meals", "936da01f-9abd-4d9d-80c7-02af85c822a8"];
    let reply = b.handle(request(Method::Put, &path, &auth, Body::Meal(payload("a", "b"))), NOW);
    assert_eq!(reply.status.code(), 202);
    assert_eq!(listed(&mut b), vec![Meal { id: PIZZA_ID, ..payload("a", "b") }]);
}

#[test]
fn a_body_that_is_missing_or_too_long_finds_no_route() {
    let mut b = backend();
    let auth = log_in(&mut b);
    let reply = b.handle(request(Method::Post, &["meals"], &auth, Body::Other), NOW);
    assert_eq!(reply.status.code(), 401);
    let mut long = request(Method::Post, &["meals"], &auth, Body::Meal(payload("a", "b")));
    long.content_length = Some(16_385);
    assert_eq!(b.handle(long, NOW).status.code(), 401);
    let mut unannounced = request(Method::Post, &["meals"], &auth, Body::Meal(payload("a", "b")));
    unannounced.content_length = None;
    assert_eq!(b.handle(unannounced, NOW).status.code(), 401);
    let attempt = Login { user: "matthew".to_string(), pw: "correct".to_string() };
    let wrong_kind = request(Method::Post, &["meals"], &auth, Body::Login(attempt));
    assert_eq!(b.handle(wrong_kind, NOW).status.code(), 401);
    let path = ["meals", "936da01f-9abd-4d9d-80c7-02af85c822a8"];
    assert_eq!(b.handle(request(Method::Put, &path, &auth, Body::Other), NOW).status.code(), 401);
    let meal_for_login = request(Method::Post, &["login"], &None, Body::Meal(payload("a", "b")));
    assert_eq!(b.handle(meal_for_login, NOW).status.code(), 401);
    assert_eq!(listed(&mut b).len(), 0);
}

#[test]
fn what_no_route_takes_is_unauthorized() {
    let mut b = backend();
    let reply = b.handle(request(Method::Get, &["nowhere"], &None, Body::Other), NOW);
    assert_eq!(reply, Reply::plain(Status::Unauthorized, Payload::Null));
    let reply = b.handle(request(Method::Post, &["meals"], &None, Body::Meal(payload("a", "b"))), NOW);
    assert_eq!(reply.status.code(), 401);
    assert_eq!(listed(&mut b).len(), 0);
}

#[test]
fn seeding_overwrites_what_stands_under_the_seed_ids() {
    let mut b = backend();
    b.meals.put_item(Meal { id: PIZZA_ID, ..payload("Old", "pizza") });
    b.meals.put_item(Meal { id: 1, ..payload("Other", "meal") });
    b.prepopulate_db();
    assert_eq!(b.meals.len(), 3);
    match b.meals.get_item(PIZZA_ID) {
        Fetched::Found(meal) => {
            assert_eq!(meal.name, "Pizza");
            assert_eq!(meal.description, "Delicious pizza");
            assert_eq!(meal.stars, Some(5));
            assert_eq!(meal.photos, None);
        },
        other => panic!("no pizza: {:?}", other),
    }
    b.prepopulate_db();
    assert_eq!(b.meals.len(), 3);
}

#[test]
fn the_table_in_memory() {
    let mut table = MealTable::new();
    assert_eq!(table.len(), 0);
    assert_eq!(table.scan(), Listing::Items(vec![]));
    assert_eq!(table.get_item(1), Fetched::Missing);
    assert_eq!(table.put_item(Meal { id: 1, ..payload("a", "b") }), Written::Done);
    assert_eq!(table.put_item(Meal { id: 2, ..payload("c", "d") }), Written::Done);
    assert_eq!(table.put_item(Meal { id: 1, ..payload("e", "f") }), Written::Done);
    assert_eq!(table.len(), 2);
    assert_eq!(table.get_item(1), Fetched::Found(Meal { id: 1, ..payload("e", "f") }));
    let mut all = scanned(&table);
    all.sort_by_key(|m| m.id);
    assert_eq!(all, vec![Meal { id: 1, ..payload("e", "f") }, Meal { id: 2, ..payload("c", "d") }]);
    assert_eq!(table.delete_item(3), Written::Done);
    assert_eq!(table.len(), 2);
    assert_eq!(table.delete_item(1), Written::Done);
    assert_eq!(table.len(), 1);
    assert_eq!(table.get_item(1), Fetched::Missing);
    assert_eq!(scanned(&table), vec![Meal { id: 2, ..payload("c", "d") }]);
}

#[test]
fn what_each_route_reads() {
    assert_eq!(body_read_by(Route::CreateMeal), BodyKind::Meal);
    assert_eq!(body_read_by(Route::UpdateMeal(1)), BodyKind::Meal);
    assert_eq!(body_read_by(Route::Login), BodyKind::Login);
    for route in [
        Route::SpecificMeal(1),
        Route::AllMeals,
        Route::DeleteMeal(1),
        Route::Health,
        Route::Unauthed,
    ] {
        assert_eq!(body_read_by(route), BodyKind::Nothing);
    }
}

#[test]
fn what_is_done_for_each_route() {
    let unauthed = Step::Reply(Reply::plain(Status::Unauthorized, Payload::Null));
    let meal = || Body::Meal(Meal { id: 42, ..payload("Wings", "mmm") });
    let attempt = Login { user: "matthew".to_string(), pw: "pw".to_string() };
    assert_eq!(dispatch_with(Route::SpecificMeal(5), None, Body::Other, "", 7), Step::Ask(Ask::Get(5)));
    assert_eq!(dispatch_with(Route::AllMeals, None, Body::Other, "", 7), Step::Ask(Ask::Scan));
    assert_eq!(dispatch_with(Route::DeleteMeal(5), None, Body::Other, "", 7), Step::Ask(Ask::Delete(5)));
    assert_eq!(
        dispatch_with(Route::CreateMeal, Some(10), meal(), "", 7),
        Step::Ask(Ask::Create(Meal { id: 7, ..payload("Wings", "mmm") }))
    );
    assert_eq!(
        dispatch_with(Route::UpdateMeal(5), Some(10), meal(), "", 7),
        Step::Ask(Ask::Update(Meal { id: 5, ..payload("Wings", "mmm") }))
    );
    assert_eq!(
        dispatch_with(Route::Login, Some(10), Body::Login(attempt.clone()), "", 7),
        Step::Login(attempt.clone())
    );
    assert_eq!(
        dispatch_with(Route::Health, None, Body::Other, "v9\n", 7),
        Step::Reply(Reply::plain(
            Status::Okay,
            Payload::Health(Health { healthy: true, version: "v9".to_string() })
        ))
    );
    assert_eq!(dispatch_with(Route::Unauthed, Some(10), meal(), "", 7), unauthed);
    // a body that is missing, too long, unannounced or of the wrong kind
    assert_eq!(dispatch_with(Route::CreateMeal, Some(10), Body::Other, "", 7), unauthed);
    assert_eq!(dispatch_with(Route::CreateMeal, Some(16_385), meal(), "", 7), unauthed);
    assert_eq!(dispatch_with(Route::CreateMeal, None, meal(), "", 7), unauthed);
    assert_eq!(dispatch_with(Route::UpdateMeal(5), None, meal(), "", 7), unauthed);
    assert_eq!(
        dispatch_with(Route::UpdateMeal(5), Some(10), Body::Login(attempt.clone()), "", 7),
        unauthed
    );
    assert_eq!(dispatch_with(Route::Login, Some(10), meal(), "", 7), unauthed);
    assert_eq!(dispatch_with(Route::Login, None, Body::Login(attempt), "", 7), unauthed);
    match dispatch(Route::CreateMeal, Some(10), meal(), "") {
        Step::Ask(Ask::Create(record)) => {
            assert_ne!(record.id, 42);
            assert_ne!(record.id, 0);
            assert_eq!(record.name, "Wings");
        },
        other => panic!("unexpected {:?}", other),
    }
}

#[test]
fn each_answer_goes_to_its_handler() {
    let wings = Meal { id: 7, ..payload("Wings", "mmm") };
    let failed = || Written::Failed("throttled".to_string());
    assert_eq!(
        conclude(Ask::Get(7), Answer::Fetched(Fetched::Found(wings.clone()))).status.code(),
        200
    );
    assert_eq!(conclude(Ask::Get(7), Answer::Fetched(Fetched::Missing)).status.code(), 404);
    assert_eq!(
        conclude(Ask::Get(7), Answer::Fetched(Fetched::Failed("down".to_string()))).status.code(),
        500
    );
    assert_eq!(
        conclude(Ask::Scan, Answer::Listed(Listing::Items(vec![Scanned::Meal(wings.clone())]))),
        Reply::plain(Status::Okay, Payload::Meals(vec![wings.clone()]))
    );
    assert_eq!(
        conclude(Ask::Scan, Answer::Listed(Listing::Failed("down".to_string()))).status.code(),
        500
    );
    assert_eq!(
        conclude(Ask::Create(wings.clone()), Answer::Written(Written::Done)),
        Reply::plain(Status::Created, Payload::Meal(wings.clone()))
    );
    assert_eq!(conclude(Ask::Create(wings.clone()), Answer::Written(failed())).status.code(), 500);
    assert_eq!(
        conclude(Ask::Update(wings.clone()), Answer::Written(Written::Done)),
        Reply::plain(Status::Accepted, Payload::Meal(wings.clone()))
    );
    assert_eq!(conclude(Ask::Update(wings.clone()), Answer::Written(failed())).status.code(), 400);
    assert_eq!(conclude(Ask::Delete(7), Answer::Written(Written::Done)).status.code(), 204);
    assert_eq!(conclude(Ask::Delete(7), Answer::Written(failed())).status.code(), 400);
    // an answer to another question
    let reply = conclude(Ask::Get(7), Answer::Written(Written::Done));
    assert_eq!(reply.status.code(), 500);
    assert_eq!(conclude(Ask::Scan, Answer::Fetched(Fetched::Missing)).status.code(), 500);
    assert_eq!(
        conclude(Ask::Delete(7), Answer::Listed(Listing::Items(vec![]))).status.code(),
        500
    );
}

#[test]
fn the_table_answers_what_it_is_asked() {
    let mut table = MealTable::new();
    let wings = Meal { id: 7, ..payload("Wings", "mmm") };
    assert_eq!(table.perform(&Ask::Get(7)), Answer::Fetched(Fetched::Missing));
    assert_eq!(table.perform(&Ask::Create(wings.clone())), Answer::Written(Written::Done));
    assert_eq!(table.perform(&Ask::Get(7)), Answer::Fetched(Fetched::Found(wings.clone())));
    assert_eq!(
        table.perform(&Ask::Scan),
        Answer::Listed(Listing::Items(vec![Scanned::Meal(wings.clone())]))
    );
    let cold = Meal { id: 7, ..payload("Cold wings", "meh") };
    assert_eq!(table.perform(&Ask::Update(cold.clone())), Answer::Written(Written::Done));
    assert_eq!(table.perform(&Ask::Get(7)), Answer::Fetched(Fetched::Found(cold)));
    assert_eq!(table.perform(&Ask::Delete(8)), Answer::Written(Written::Done));
    assert_eq!(table.len(), 1);
    assert_eq!(table.perform(&Ask::Delete(7)), Answer::Written(Written::Done));
    assert_eq!(table.len(), 0);
}
