//! What the bar at the top of the page shows.

use crate::frontend::model::{Model, ModelView, Pages};
use vstd::prelude::*;

verus! {

/// The link at the end of the bar.
#[derive(Debug, Clone, Copy, PartialEq, Eq, Structural)]
pub enum SessionLink {
    /// Shown while logged in; a click logs out.
    Logout,
    /// Shown while logged out; leads to the login page.
    Login,
}

/// The state of the bar.
#[derive(Debug, Clone, Copy, PartialEq, Eq, Structural)]
pub struct NavBar {
    /// Whether the entry "Home" is marked as the current one.
    pub home_active: bool,
    /// Whether the entry "Meals" is marked as the current one.
    pub meals_active: bool,
    pub session: SessionLink,
}

/// Whether a page belongs to the entry "Meals".
pub open spec fn is_meal_page(page: Pages) -> bool {
    page is Meals || page is CreateMeal || page is EditMeal || page is ViewSpecificMeal
}

/// The bar for a state of the page.
pub open spec fn nav_bar(model: ModelView) -> NavBar {
    NavBar {
        home_active: model.page is Home,
        meals_active: is_meal_page(model.page),
        session: if model.auth is Some {
            SessionLink::Logout
        } else {
            SessionLink::Login
        },
    }
}

/// The entries of the bar: which one is current, and whether it offers to
/// log in or to log out.
pub fn nav_nodes(model: &Model) -> (bar: NavBar)
    ensures
        bar == nav_bar(model@),
{
    let home_active = match model.page {
        Pages::Home => true,
        _ => false,
    };
    let meals_active = match model.page {
        Pages::Meals => true,
        Pages::CreateMeal => true,
        Pages::EditMeal { .. } => true,
        Pages::ViewSpecificMeal { .. } => true,
        _ => false,
    };
    let session = match model.auth {
        Some(_) => SessionLink::Logout,
        None => SessionLink::Login,
    };
    NavBar { home_active, meals_active, session }
}

/// At most one entry of the bar is current, and on the login page none is.
pub proof fn one_entry_is_current(model: ModelView)
    ensures
        !(nav_bar(model).home_active && nav_bar(model).meals_active),
        model.page is Login ==> !nav_bar(model).home_active && !nav_bar(model).meals_active,
{
}

} // verus!
