//! The decisions that the pages take when they are drawn.

use crate::backend::ids::{id_text, uuid_text};
use crate::frontend::frontend_types::SortingOptions;
use crate::frontend::model::{Model, ModelView, Msg, MsgView, Pages};
use crate::shared::opt_text;
use vstd::prelude::*;
use vstd::string::StringExecFns;

verus! {

/// The code of the enter key.
pub const ENTER_KEY: u32 = 13;

/// The version that the foot of the page names: `dev` for a build without
/// a version text, else that text as it stands.
pub open spec fn footer_version(gitbits: Seq<char>) -> Seq<char> {
    "version: "@ + if gitbits.len() == 0 {
        "dev"@
    } else {
        gitbits
    }
}

/// The line at the foot of the page.
pub fn footer(gitbits: &str) -> (line: String)
    ensures
        line@ == footer_version(gitbits@),
{
    let mut line = String::from_str("version: ");
    if gitbits.is_empty() {
        line.append("dev");
    } else {
        line.append(gitbits);
    }
    line
}

/// The message for a key pressed in the password field: enter submits the
/// form, any other key does nothing.
pub fn key_pressed(key_code: u32) -> (msg: Msg)
    ensures
        msg@ == if key_code == ENTER_KEY {
            MsgView::LoginFromTxt
        } else {
            MsgView::NoOp
        },
{
    if key_code == ENTER_KEY {
        Msg::LoginFromTxt
    } else {
        Msg::NoOp
    }
}

/// The message that the button of the meal form sends: on the page that
/// creates a meal, to create the meal of the form; on any other page, to
/// save it, on the page that edits a meal under the id of that page.
pub open spec fn submit_message(model: ModelView) -> MsgView {
    match model.page {
        Pages::CreateMeal => MsgView::CreateNewMeal(model.meal_under_construction),
        Pages::EditMeal { meal_id } => MsgView::SaveMeal(
            model.meal_under_construction.with_id(meal_id),
        ),
        _ => MsgView::SaveMeal(model.meal_under_construction),
    }
}

/// The message that the button of the meal form sends.
pub fn create_meal_view(model: &Model) -> (msg: Msg)
    ensures
        msg@ == submit_message(model@),
{
    let meal = model.meal_under_construction.duplicate();
    match model.page {
        Pages::CreateMeal => Msg::CreateNewMeal(meal),
        Pages::EditMeal { meal_id } => Msg::SaveMeal(meal.with_id(meal_id)),
        _ => Msg::SaveMeal(meal),
    }
}

/// The words on the button of the meal form.
pub fn submit_text(page: &Pages) -> (words: &'static str)
    ensures
        words@ == if *page is CreateMeal {
            "make it"@
        } else {
            "save it"@
        },
{
    match page {
        Pages::CreateMeal => "make it",
        _ => "save it",
    }
}

/// The heading of the meal form.
pub fn form_heading(page: &Pages) -> (words: &'static str)
    ensures
        words@ == if *page is CreateMeal {
            "Creating a new one"@
        } else {
            "Editing meal"@
        },
{
    match page {
        Pages::CreateMeal => "Creating a new one",
        _ => "Editing meal",
    }
}

/// The line under the meal form: what went wrong, where something did.
pub open spec fn form_error_line(error: Option<Seq<char>>) -> Option<Seq<char>> {
    match error {
        Some(e) => Some("error was "@ + e),
        None => None,
    }
}

/// The line under the login form: what went wrong, where something did.
pub open spec fn login_error_line(error: Option<Seq<char>>) -> Option<Seq<char>> {
    match error {
        Some(e) => Some("Please enter a username and password. Error: "@ + e),
        None => None,
    }
}

/// The line under the meal form when something went wrong.
pub fn meal_form_error(model: &Model) -> (line: Option<String>)
    ensures
        opt_text(line) == form_error_line(model@.error),
{
    match &model.error {
        Some(error) => {
            let mut line = String::from_str("error was ");
            line.append(error.as_str());
            Some(line)
        },
        None => None,
    }
}

/// The line under the login form when something went wrong.
pub fn create_login_view(model: &Model) -> (line: Option<String>)
    ensures
        opt_text(line) == login_error_line(model@.error),
{
    match &model.error {
        Some(error) => {
            let mut line = String::from_str("Please enter a username and password. Error: ");
            line.append(error.as_str());
            Some(line)
        },
        None => None,
    }
}

/// The head of the rating column: it shows which way the list is ordered.
pub fn star_sort_arrow(sort: &Option<SortingOptions>) -> (words: &'static str)
    ensures
        words@ == match sort {
            Some(SortingOptions::StarsAsc) => "rating \u{2b06}\u{fe0f}"@,
            Some(SortingOptions::StarsDesc) => "rating \u{2b07}\u{fe0f}"@,
            None => "rating"@,
        },
{
    match sort {
        Some(SortingOptions::StarsAsc) => "rating \u{2b06}\u{fe0f}",
        Some(SortingOptions::StarsDesc) => "rating \u{2b07}\u{fe0f}",
        None => "rating",
    }
}

/// The address of a page, as the links of the application write it.
pub open spec fn page_address(page: Pages) -> Seq<char> {
    match page {
        Pages::Home => "/"@,
        Pages::Meals => "/meals"@,
        Pages::ViewSpecificMeal { meal_id } => "/meals/"@ + uuid_text(meal_id),
        Pages::EditMeal { meal_id } => "/meals/"@ + uuid_text(meal_id) + "/edit"@,
        Pages::CreateMeal => "/meals/create"@,
        Pages::Login => "/login"@,
    }
}

/// The address that a link to a page points to.
pub fn href_of(page: &Pages) -> (href: String)
    ensures
        href@ == page_address(*page),
{
    match page {
        Pages::Home => String::from_str("/"),
        Pages::Meals => String::from_str("/meals"),
        Pages::ViewSpecificMeal { meal_id } => {
            let mut href = String::from_str("/meals/");
            href.append(id_text(*meal_id).as_str());
            href
        },
        Pages::EditMeal { meal_id } => {
            let mut href = String::from_str("/meals/");
            href.append(id_text(*meal_id).as_str());
            href.append("/edit");
            href
        },
        Pages::CreateMeal => String::from_str("/meals/create"),
        Pages::Login => String::from_str("/login"),
    }
}

} // verus!
