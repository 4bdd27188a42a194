//! Which page an address shows.

use crate::backend::ids::{fresh_id, is_random_uuid, parse_id, uuid_parse};
use crate::frontend::model::{
    order_views, Model, ModelView, Msg, MsgView, Order, OrderView, Pages,
};
use crate::shared::opt_text;
use crate::text::{same_text, texts_of};
use vstd::prelude::*;

verus! {

/// The page for a path, given the id that its second segment reads as, if
/// it has one and it reads as an id.
pub open spec fn page_with(path: Seq<Seq<char>>, id: Option<u128>) -> Pages {
    if path.len() == 0 {
        Pages::Home
    } else if path[0] == "meals"@ {
        if path.len() == 1 {
            Pages::Meals
        } else if path[1] == "create"@ {
            Pages::CreateMeal
        } else {
            match id {
                Some(meal_id) => if path.len() >= 3 && path[2] == "edit"@ {
                    Pages::EditMeal { meal_id }
                } else {
                    Pages::ViewSpecificMeal { meal_id }
                },
                None => Pages::Meals,
            }
        }
    } else if path[0] == "login"@ {
        Pages::Login
    } else {
        Pages::Home
    }
}

/// The id that the second segment of a path reads as.
pub open spec fn second_as_id(path: Seq<Seq<char>>) -> Option<u128> {
    if path.len() >= 2 {
        uuid_parse(path[1])
    } else {
        None
    }
}

/// The page for a path.
pub open spec fn page_for(path: Seq<Seq<char>>) -> Pages {
    page_with(path, second_as_id(path))
}

/// Picks the page once the id in the path is read.
pub fn select_page(path: &Vec<String>, id: Option<u128>) -> (page: Pages)
    ensures
        page == page_with(texts_of(path@), id),
{
    if path.len() == 0 {
        Pages::Home
    } else if same_text(path[0].as_str(), "meals") {
        if path.len() == 1 {
            Pages::Meals
        } else if same_text(path[1].as_str(), "create") {
            Pages::CreateMeal
        } else {
            match id {
                Some(meal_id) => if path.len() >= 3 && same_text(path[2].as_str(), "edit") {
                    Pages::EditMeal { meal_id }
                } else {
                    Pages::ViewSpecificMeal { meal_id }
                },
                None => Pages::Meals,
            }
        }
    } else if same_text(path[0].as_str(), "login") {
        Pages::Login
    } else {
        Pages::Home
    }
}

/// The page that a path shows.
pub fn page_of(path: &Vec<String>) -> (page: Pages)
    ensures
        page == page_for(texts_of(path@)),
{
    let id = if path.len() >= 2 {
        parse_id(path[1].as_str())
    } else {
        None
    };
    select_page(path, id)
}

/// The message that a change of the address leads to: go to its page.
pub fn routes(path: &Vec<String>) -> (msg: Option<Msg>)
    ensures
        msg matches Some(m) && m@ == MsgView::ChangePage(page_for(texts_of(path@))),
{
    Some(Msg::ChangePage(page_of(path)))
}

/// The state in which the page opens at an address, with the given ids for
/// its two meals, and the one order that goes with it: to look for the token
/// that the browser kept, which is handed in as `stored`.
pub fn after_mount_with(
    path: &Vec<String>,
    stored: Option<String>,
    form_id: u128,
    detail_id: u128,
) -> (opened: (Model, Vec<Order>))
    ensures
        opened.0@ == (ModelView {
            page: page_for(texts_of(path@)),
            ..ModelView::fresh(form_id, detail_id)
        }),
        order_views(opened.1@) == seq![
            OrderView::Send(MsgView::Rehydrate { stored: opt_text(stored) }),
        ],
{
    let mut model = Model::with_ids(form_id, detail_id);
    model.page = page_of(path);
    let mut orders: Vec<Order> = Vec::new();
    orders.push(Order::Send(Msg::Rehydrate { stored }));
    proof {
        assert(order_views(orders@) == seq![
            OrderView::Send(MsgView::Rehydrate { stored: opt_text(stored) }),
        ]);
    }
    (model, orders)
}

/// The state in which the page opens at an address. Its two meals get
/// newly minted ids.
pub fn after_mount(path: &Vec<String>, stored: Option<String>) -> (opened: (Model, Vec<Order>))
    ensures
        exists|form_id: u128, detail_id: u128|
            is_random_uuid(form_id) && is_random_uuid(detail_id) && opened.0@ == (ModelView {
                page: page_for(texts_of(path@)),
                ..#[trigger] ModelView::fresh(form_id, detail_id)
            }),
        order_views(opened.1@) == seq![
            OrderView::Send(MsgView::Rehydrate { stored: opt_text(stored) }),
        ],
{
    let form_id = fresh_id();
    let detail_id = fresh_id();
    after_mount_with(path, stored, form_id, detail_id)
}

} // verus!
