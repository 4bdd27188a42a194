//! The record that both sides of the service exchange.

use vstd::prelude::*;

verus! {

/// A meal: the one entity that the service stores.
#[derive(Debug, Clone, PartialEq, Eq, Hash)]
pub struct Meal {
    pub name: String,
    /// The record's key, a UUID held as its 128-bit number.
    pub id: u128,
    /// Reference to pictures kept elsewhere; carried, never followed.
    pub photos: Option<String>,
    pub description: String,
    /// Rating, one to five by convention.
    pub stars: Option<i32>,
}

/// What a [`Meal`] holds, as mathematical values.
pub struct MealView {
    pub name: Seq<char>,
    pub id: u128,
    pub photos: Option<Seq<char>>,
    pub description: Seq<char>,
    pub stars: Option<i32>,
}

/// The text that an optional string holds, if any.
pub open spec fn opt_text(s: Option<String>) -> Option<Seq<char>> {
    match s {
        Some(t) => Some(t@),
        None => None,
    }
}

impl View for Meal {
    type V = MealView;

    open spec fn view(&self) -> MealView {
        MealView {
            name: self.name@,
            id: self.id,
            photos: opt_text(self.photos),
            description: self.description@,
            stars: self.stars,
        }
    }
}

impl MealView {
    /// The same meal under another key.
    pub open spec fn with_id(self, id: u128) -> MealView {
        MealView { id, ..self }
    }

    /// A meal may be submitted once it has a name and a description.
    pub open spec fn ready_to_submit(self) -> bool {
        self.name.len() > 0 && self.description.len() > 0
    }

    /// The meal that `Meal::default()` gives: nil id, empty texts, no photos, no rating.
    pub open spec fn blank() -> MealView {
        MealView {
            name: Seq::empty(),
            id: 0,
            photos: None,
            description: Seq::empty(),
            stars: None,
        }
    }
}

/// The views of a run of meals, in the same order.
pub open spec fn meal_views(meals: Seq<Meal>) -> Seq<MealView> {
    meals.map_values(|m: Meal| m@)
}

/// A copy of an optional string.
pub fn copy_opt_text(s: &Option<String>) -> (out: Option<String>)
    ensures
        opt_text(out) == opt_text(*s),
{
    match s {
        Some(t) => Some(t.clone()),
        None => None,
    }
}

impl Meal {
    /// A copy that holds the same values.
    pub fn duplicate(&self) -> (copy: Meal)
        ensures
            copy@ == self@,
    {
        Meal {
            name: self.name.clone(),
            id: self.id,
            photos: copy_opt_text(&self.photos),
            description: self.description.clone(),
            stars: self.stars,
        }
    }

    /// The same meal under another key.
    pub fn with_id(self, id: u128) -> (out: Meal)
        ensures
            out@ == self@.with_id(id),
    {
        Meal { id, ..self }
    }

    /// Whether the meal has both a name and a description.
    pub fn ready_to_submit(&self) -> (ready: bool)
        ensures
            ready == self@.ready_to_submit(),
    {
        !self.name.as_str().is_empty() && !self.description.as_str().is_empty()
    }
}

impl Default for Meal {
    fn default() -> (meal: Meal)
        ensures
            meal@ == MealView::blank(),
    {
        Meal {
            name: String::new(),
            id: 0,
            photos: None,
            description: String::new(),
            stars: None,
        }
    }
}

/// Copies a run of meals.
pub fn duplicate_all(meals: &Vec<Meal>) -> (copy: Vec<Meal>)
    ensures
        meal_views(copy@) == meal_views(meals@),
{
    let mut copy: Vec<Meal> = Vec::new();
    let mut i: usize = 0;
    while i < meals.len()
        invariant
            i <= meals.len(),
            meal_views(copy@) == meal_views(meals@.take(i as int)),
        decreases meals.len() - i,
    {
        let ghost before = copy@;
        copy.push(meals[i].duplicate());
        proof {
            assert(meals@.take(i + 1) == meals@.take(i as int).push(meals@[i as int]));
            assert(meal_views(copy@) == meal_views(before).push(meals@[i as int]@));
            assert(meal_views(meals@.take(i + 1)) == meal_views(meals@.take(i as int)).push(
                meals@[i as int]@,
            ));
        }
        i += 1;
    }
    proof {
        assert(meals@.take(meals.len() as int) == meals@);
    }
    copy
}

} // verus!
