//! Which handler a request goes to. A request that no route takes, or that
//! the guard turns away, goes to the one that answers "unauthorized".

use crate::backend::auth::{authorizes, is_authed};
use crate::backend::ids::{parse_id, uuid_parse};
use crate::backend::jwt_db::JwtDb;
use crate::shared::opt_text;
use crate::text::{same_text, segments_of, split_nonempty, texts_of};
use vstd::prelude::*;

verus! {

/// The largest body that a route reads, in bytes.
pub const BODY_LIMIT: u64 = 16 * 1024;

/// The method of a request.
#[derive(Debug, Clone, Copy, PartialEq, Eq, Structural)]
pub enum Method {
    Get,
    Post,
    Put,
    Delete,
    /// Any other method.
    Other,
}

/// Where a request goes.
#[derive(Debug, Clone, Copy, PartialEq, Eq, Structural)]
pub enum Route {
    /// `GET /meals/{id}`
    SpecificMeal(u128),
    /// `GET /meals`
    AllMeals,
    /// `POST /meals`, with a token
    CreateMeal,
    /// `DELETE /meals/{id}`, with a token
    DeleteMeal(u128),
    /// `PUT /meals/{id}`, with a token
    UpdateMeal(u128),
    /// `GET /health`
    Health,
    /// `POST /login`
    Login,
    /// Everything else.
    Unauthed,
}

/// Whether the request carries an `Authorization` header that lets it through.
pub open spec fn guard_passed(
    authorization: Option<Seq<char>>,
    issued: Set<Seq<char>>,
    secret: Seq<char>,
) -> bool {
    authorization matches Some(auth) && authorizes(auth, issued, secret)
}

/// The route of a request, given the id that its second path segment reads
/// as (if it has one and it reads as an id) and whether the guard lets it through.
pub open spec fn route_with(
    method: Method,
    path: Seq<Seq<char>>,
    id: Option<u128>,
    authed: bool,
) -> Route {
    if path.len() == 2 && path[0] == "meals"@ && id is Some {
        match method {
            Method::Get => Route::SpecificMeal(id->Some_0),
            Method::Delete if authed => Route::DeleteMeal(id->Some_0),
            Method::Put if authed => Route::UpdateMeal(id->Some_0),
            _ => Route::Unauthed,
        }
    } else if path.len() == 1 && path[0] == "meals"@ {
        match method {
            Method::Get => Route::AllMeals,
            Method::Post if authed => Route::CreateMeal,
            _ => Route::Unauthed,
        }
    } else if path.len() == 1 && path[0] == "health"@ && method == Method::Get {
        Route::Health
    } else if path.len() == 1 && path[0] == "login"@ && method == Method::Post {
        Route::Login
    } else {
        Route::Unauthed
    }
}

/// The id that the second segment of a path reads as.
pub open spec fn path_id(path: Seq<Seq<char>>) -> Option<u128> {
    if path.len() == 2 {
        uuid_parse(path[1])
    } else {
        None
    }
}

/// The route of a request.
pub open spec fn route_of(
    method: Method,
    path: Seq<Seq<char>>,
    authorization: Option<Seq<char>>,
    issued: Set<Seq<char>>,
    secret: Seq<char>,
) -> Route {
    route_with(method, path, path_id(path), guard_passed(authorization, issued, secret))
}

/// A route reads a body only where the request announces its length and
/// that is within the limit.
pub open spec fn body_within_limit(content_length: Option<u64>) -> bool {
    content_length matches Some(n) && n <= BODY_LIMIT
}

/// Whether a body of the announced length is read.
pub fn body_admitted(content_length: Option<u64>) -> (ok: bool)
    ensures
        ok == body_within_limit(content_length),
{
    match content_length {
        Some(n) => n <= BODY_LIMIT,
        None => false,
    }
}

/// Picks the route once the path's id is read and the guard has decided.
pub fn select_route(method: Method, path: &Vec<String>, id: Option<u128>, authed: bool) -> (route:
    Route)
    ensures
        route == route_with(method, texts_of(path@), id, authed),
{
    if path.len() == 2 && same_text(path[0].as_str(), "meals") && id.is_some() {
        let id = id.unwrap();
        match method {
            Method::Get => Route::SpecificMeal(id),
            Method::Delete => if authed {
                Route::DeleteMeal(id)
            } else {
                Route::Unauthed
            },
            Method::Put => if authed {
                Route::UpdateMeal(id)
            } else {
                Route::Unauthed
            },
            _ => Route::Unauthed,
        }
    } else if path.len() == 1 && same_text(path[0].as_str(), "meals") {
        match method {
            Method::Get => Route::AllMeals,
            Method::Post => if authed {
                Route::CreateMeal
            } else {
                Route::Unauthed
            },
            _ => Route::Unauthed,
        }
    } else if path.len() == 1 && same_text(path[0].as_str(), "health") && method == Method::Get {
        Route::Health
    } else if path.len() == 1 && same_text(path[0].as_str(), "login") && method == Method::Post {
        Route::Login
    } else {
        Route::Unauthed
    }
}

/// Routes a request: reads the id in its path, asks the guard where the
/// request carries an `Authorization` header, and picks the handler.
pub fn meal_filters(
    method: Method,
    path: &Vec<String>,
    authorization: &Option<String>,
    jwtdb: &JwtDb,
    secret: &str,
) -> (route: Route)
    ensures
        route == route_of(method, texts_of(path@), opt_text(*authorization), jwtdb@, secret@),
{
    let id = if path.len() == 2 {
        parse_id(path[1].as_str())
    } else {
        None
    };
    let authed = match authorization {
        Some(auth) => is_authed(auth.as_str(), jwtdb, secret),
        None => false,
    };
    select_route(method, path, id, authed)
}

/// The segments of a request path: what stands between its slashes, but for
/// what is empty.
pub fn path_segments(path: &str) -> (out: Vec<String>)
    ensures
        texts_of(out@) == segments_of(path@, '/'),
{
    split_nonempty(path, '/')
}

} // verus!
