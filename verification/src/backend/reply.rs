//! What a handler answers: a status, a body, and how to send it.

use crate::backend::backend_types::{
    ErrorResp, ErrorRespView, Health, HealthView, LoginResp, LoginRespView,
};
use crate::shared::{meal_views, opt_text, Meal, MealView};
use vstd::prelude::*;

verus! {

/// The HTTP statuses that the service answers with.
#[derive(Debug, Clone, Copy, PartialEq, Eq, Structural)]
pub enum Status {
    Okay,
    Created,
    Accepted,
    NoContent,
    BadRequest,
    Unauthorized,
    NotFound,
    InternalServerError,
}

impl Status {
    /// The status as its three-digit number.
    pub open spec fn number(self) -> u16 {
        match self {
            Status::Okay => 200,
            Status::Created => 201,
            Status::Accepted => 202,
            Status::NoContent => 204,
            Status::BadRequest => 400,
            Status::Unauthorized => 401,
            Status::NotFound => 404,
            Status::InternalServerError => 500,
        }
    }

    /// The status as its three-digit number.
    pub fn code(self) -> (n: u16)
        ensures
            n == self.number(),
    {
        match self {
            Status::Okay => 200,
            Status::Created => 201,
            Status::Accepted => 202,
            Status::NoContent => 204,
            Status::BadRequest => 400,
            Status::Unauthorized => 401,
            Status::NotFound => 404,
            Status::InternalServerError => 500,
        }
    }
}

/// The body of a reply, before it is written as JSON.
#[derive(Debug, Clone, PartialEq, Eq)]
pub enum Payload {
    /// No body at all.
    Nothing,
    /// The empty JSON value.
    Null,
    Meal(Meal),
    Meals(Vec<Meal>),
    Error(ErrorResp),
    Health(Health),
    Login(LoginResp),
}

pub enum PayloadView {
    Nothing,
    Null,
    Meal(MealView),
    Meals(Seq<MealView>),
    Error(ErrorRespView),
    Health(HealthView),
    Login(LoginRespView),
}

impl View for Payload {
    type V = PayloadView;

    open spec fn view(&self) -> PayloadView {
        match self {
            Payload::Nothing => PayloadView::Nothing,
            Payload::Null => PayloadView::Null,
            Payload::Meal(m) => PayloadView::Meal(m@),
            Payload::Meals(ms) => PayloadView::Meals(meal_views(ms@)),
            Payload::Error(e) => PayloadView::Error(e@),
            Payload::Health(h) => PayloadView::Health(h@),
            Payload::Login(l) => PayloadView::Login(l@),
        }
    }
}

/// A handler's answer.
#[derive(Debug, Clone, PartialEq, Eq)]
pub struct Reply {
    pub status: Status,
    pub body: Payload,
    /// Value of a `Set-Cookie` header to send along, if any.
    pub cookie: Option<String>,
    /// How long to hold the reply back before it is sent, in milliseconds.
    pub hold_millis: u64,
}

pub struct ReplyView {
    pub status: Status,
    pub body: PayloadView,
    pub cookie: Option<Seq<char>>,
    pub hold_millis: u64,
}

impl View for Reply {
    type V = ReplyView;

    open spec fn view(&self) -> ReplyView {
        ReplyView {
            status: self.status,
            body: self.body@,
            cookie: opt_text(self.cookie),
            hold_millis: self.hold_millis,
        }
    }
}

impl ReplyView {
    /// A reply that is sent at once, without a cookie.
    pub open spec fn plain(status: Status, body: PayloadView) -> ReplyView {
        ReplyView { status, body, cookie: None, hold_millis: 0 }
    }
}

impl Reply {
    /// A reply that is sent at once, without a cookie.
    pub fn plain(status: Status, body: Payload) -> (reply: Reply)
        ensures
            reply@ == ReplyView::plain(status, body@),
    {
        Reply { status, body, cookie: None, hold_millis: 0 }
    }
}

} // verus!
