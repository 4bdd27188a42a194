//! The bodies that the page sends and reads besides meals.

use crate::shared::Meal;
use vstd::prelude::*;

verus! {

/// Body of a successful login.
#[derive(Debug, Clone, PartialEq, Eq)]
pub struct LoginResp {
    pub jwt: String,
}

/// What the login form holds.
#[derive(Debug, Clone, PartialEq, Eq)]
pub struct LoginInput {
    pub user: String,
    pub pw: String,
}

/// The meals on the list page, in the order shown.
pub type MealMap = Vec<Meal>;

/// How the list of meals is ordered.
#[derive(Debug, Clone, Copy, PartialEq, Eq, Structural)]
pub enum SortingOptions {
    /// Lowest rating first.
    StarsAsc,
    /// Highest rating first.
    StarsDesc,
}

/// The least that names a meal in a request.
#[derive(Debug, Clone, PartialEq, Eq)]
pub struct CreateMealRequestBody {
    pub name: String,
    pub id: u128,
}

/// A meal as the server answers a create or an update with.
pub type MealCreatedResponse = Meal;

/// Body of the answer to a delete: there is nothing in it.
#[derive(Debug, Clone, Copy, PartialEq, Eq, Structural)]
pub struct MealDeletedResponse {}

pub struct LoginRespView {
    pub jwt: Seq<char>,
}

pub struct LoginInputView {
    pub user: Seq<char>,
    pub pw: Seq<char>,
}

impl View for LoginResp {
    type V = LoginRespView;

    open spec fn view(&self) -> LoginRespView {
        LoginRespView { jwt: self.jwt@ }
    }
}

impl View for LoginInput {
    type V = LoginInputView;

    open spec fn view(&self) -> LoginInputView {
        LoginInputView { user: self.user@, pw: self.pw@ }
    }
}

impl LoginInput {
    /// A copy that holds the same texts.
    pub fn duplicate(&self) -> (copy: LoginInput)
        ensures
            copy@ == self@,
    {
        LoginInput { user: self.user.clone(), pw: self.pw.clone() }
    }
}

/// What an optional login form holds.
pub open spec fn opt_login(login: Option<LoginInput>) -> Option<LoginInputView> {
    match login {
        Some(l) => Some(l@),
        None => None,
    }
}

} // verus!
