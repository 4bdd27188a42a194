//! A rating as a row of five stars.

use crate::frontend::model::{Msg, MsgView};
use vstd::prelude::*;

verus! {

/// How many stars a row has.
pub const STAR_COUNT: u8 = 5;

/// How many of the five stars are lit: as many as the rating says, and none
/// for a rating below one or above five, or where there is no rating.
pub open spec fn lit_stars(stars: Option<i32>) -> int {
    match stars {
        Some(n) => if 1 <= n <= 5 {
            n as int
        } else {
            0
        },
        None => 0,
    }
}

/// One star of a row that can be clicked on to give a rating.
#[derive(Debug, Clone, Copy, PartialEq, Eq, Structural)]
pub struct ClickableStar {
    /// The rating that a click on the star gives.
    pub rating: i32,
    /// Whether the star is lit.
    pub active: bool,
}

impl ClickableStar {
    /// The message that a click on the star sends.
    pub open spec fn clicked(self) -> MsgView {
        MsgView::MealCreateUpdateStars(self.rating)
    }

    /// The message that a click on the star sends.
    pub fn on_click(&self) -> (msg: Msg)
        ensures
            msg@ == self.clicked(),
    {
        Msg::MealCreateUpdateStars(self.rating)
    }
}

/// How many of the five stars to show lit for a rating.
pub fn stars(rating: Option<i32>) -> (lit: u8)
    ensures
        lit == lit_stars(rating),
{
    match rating {
        Some(n) => if 1 <= n && n <= 5 {
            n as u8
        } else {
            0
        },
        None => 0,
    }
}

/// A star that gives `rating` when clicked on.
pub fn clickable_star(rating: i32, active: bool) -> (star: ClickableStar)
    ensures
        star == (ClickableStar { rating, active }),
{
    ClickableStar { rating, active }
}

/// The row of five stars for a rating: the star at place `k`, counted from
/// one, gives the rating `k` when clicked on, and is lit where the rating
/// reaches it.
pub fn clickable_stars(stars: Option<i32>) -> (row: Vec<ClickableStar>)
    ensures
        row@.len() == STAR_COUNT,
        forall|k: int|
            0 <= k < row@.len() ==> (#[trigger] row@[k]).rating == k + 1 && row@[k].active == (k
                < lit_stars(stars)),
{
    let lit = self::stars(stars);
    let mut row: Vec<ClickableStar> = Vec::new();
    let mut k: u8 = 0;
    while k < STAR_COUNT
        invariant
            k <= STAR_COUNT,
            lit == lit_stars(stars),
            row@.len() == k,
            forall|j: int|
                0 <= j < row@.len() ==> (#[trigger] row@[j]).rating == j + 1 && row@[j].active == (j
                    < lit_stars(stars)),
        decreases STAR_COUNT - k,
    {
        row.push(clickable_star(k as i32 + 1, k < lit));
        k += 1;
    }
    row
}

} // verus!
