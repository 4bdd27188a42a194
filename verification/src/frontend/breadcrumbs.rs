//! The trail above a page: where it stands among the pages.

use crate::frontend::model::Pages;
use crate::shared::{Meal, MealView};
use vstd::prelude::*;
use vstd::string::StringExecFns;

verus! {

/// One step of the trail.
#[derive(Debug, Clone, PartialEq, Eq)]
pub struct Crumb {
    pub label: String,
    /// The page that a click on the step leads to; the last step leads nowhere.
    pub target: Option<Pages>,
}

pub struct CrumbView {
    pub label: Seq<char>,
    pub target: Option<Pages>,
}

impl View for Crumb {
    type V = CrumbView;

    open spec fn view(&self) -> CrumbView {
        CrumbView { label: self.label@, target: self.target }
    }
}

/// The views of a trail, in the same order.
pub open spec fn crumb_views(trail: Seq<Crumb>) -> Seq<CrumbView> {
    trail.map_values(|c: Crumb| c@)
}

/// The step that leads to the list of meals.
pub open spec fn meals_crumb() -> CrumbView {
    CrumbView { label: "meals"@, target: Some(Pages::Meals) }
}

/// The trail of a page. `shown` is the meal of the detail page, `edited`
/// the meal of the form.
pub open spec fn trail(page: Pages, shown: MealView, edited: MealView) -> Seq<CrumbView> {
    match page {
        Pages::Home => Seq::empty(),
        Pages::Meals => seq![meals_crumb()],
        Pages::ViewSpecificMeal { .. } => seq![
            meals_crumb(),
            CrumbView { label: " "@ + shown.name, target: None },
        ],
        Pages::EditMeal { .. } => seq![
            meals_crumb(),
            CrumbView {
                label: " "@ + edited.name + " "@,
                target: Some(Pages::ViewSpecificMeal { meal_id: edited.id }),
            },
            CrumbView { label: "edit"@, target: None },
        ],
        Pages::CreateMeal => seq![
            meals_crumb(),
            CrumbView { label: "create new meal"@, target: None },
        ],
        Pages::Login => Seq::empty(),
    }
}

/// The trail of a page: none on the home and login pages; else it starts at
/// the list of meals and ends at the page itself.
pub fn breadcrumbs(page: &Pages, meal_v: &Meal, meal_edit: &Meal) -> (steps: Vec<Crumb>)
    ensures
        crumb_views(steps@) == trail(*page, meal_v@, meal_edit@),
{
    let mut steps: Vec<Crumb> = Vec::new();
    match page {
        Pages::Home => {},
        Pages::Login => {},
        Pages::Meals => {
            steps.push(Crumb { label: String::from_str("meals"), target: Some(Pages::Meals) });
        },
        Pages::ViewSpecificMeal { .. } => {
            steps.push(Crumb { label: String::from_str("meals"), target: Some(Pages::Meals) });
            let mut label = String::from_str(" ");
            label.append(meal_v.name.as_str());
            steps.push(Crumb { label, target: None });
        },
        Pages::EditMeal { .. } => {
            steps.push(Crumb { label: String::from_str("meals"), target: Some(Pages::Meals) });
            let mut label = String::from_str(" ");
            label.append(meal_edit.name.as_str());
            label.append(" ");
            steps.push(
                Crumb {
                    label,
                    target: Some(Pages::ViewSpecificMeal { meal_id: meal_edit.id }),
                },
            );
            steps.push(Crumb { label: String::from_str("edit"), target: None });
        },
        Pages::CreateMeal => {
            steps.push(Crumb { label: String::from_str("meals"), target: Some(Pages::Meals) });
            steps.push(Crumb { label: String::from_str("create new meal"), target: None });
        },
    }
    proof {
        assert(crumb_views(steps@) =~= trail(*page, meal_v@, meal_edit@));
    }
    steps
}

} // verus!
