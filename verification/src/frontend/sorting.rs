//! Ordering the meals of the list by their rating.

use crate::shared::{meal_views, Meal, MealView};
use vstd::prelude::*;

verus! {

/// Where a rating stands in the order: a meal without a rating comes before
/// every rated one, and rated ones come by their number.
pub open spec fn star_rank(stars: Option<i32>) -> int {
    match stars {
        None => i32::MIN - 1,
        Some(n) => n as int,
    }
}

/// `sorted` with `meal` put behind the last meal that does not rank above it.
pub open spec fn place(sorted: Seq<MealView>, meal: MealView) -> Seq<MealView>
    decreases sorted.len(),
{
    if sorted.len() == 0 {
        seq![meal]
    } else if star_rank(sorted.last().stars) <= star_rank(meal.stars) {
        sorted.push(meal)
    } else {
        place(sorted.drop_last(), meal).push(sorted.last())
    }
}

/// The meals by rising rank; meals of one rank keep the order they came in.
pub open spec fn by_stars(meals: Seq<MealView>) -> Seq<MealView>
    decreases meals.len(),
{
    if meals.len() == 0 {
        Seq::empty()
    } else {
        place(by_stars(meals.drop_last()), meals.last())
    }
}

/// The meals by falling rank: the rising order, turned round.
pub open spec fn by_stars_desc(meals: Seq<MealView>) -> Seq<MealView> {
    by_stars(meals).reverse()
}

/// No meal stands before one of lower rank.
pub open spec fn rising(meals: Seq<MealView>) -> bool {
    forall|i: int, j: int|
        0 <= i <= j < meals.len() ==> star_rank(#[trigger] meals[i].stars) <= star_rank(
            #[trigger] meals[j].stars,
        )
}

/// Placing a meal at `at` is placing it by rank, where all meals before
/// `at` rank no higher and all from `at` on rank higher.
proof fn lemma_place_at(sorted: Seq<MealView>, meal: MealView, at: int)
    requires
        0 <= at <= sorted.len(),
        forall|k: int|
            at <= k < sorted.len() ==> star_rank(#[trigger] sorted[k].stars) > star_rank(
                meal.stars,
            ),
        at > 0 ==> star_rank(sorted[at - 1].stars) <= star_rank(meal.stars),
    ensures
        place(sorted, meal) == sorted.insert(at, meal),
    decreases sorted.len(),
{
    if sorted.len() == 0 {
        assert(sorted.insert(0, meal) == seq![meal]);
    } else if at == sorted.len() {
        assert(sorted.insert(at, meal) == sorted.push(meal));
    } else {
        lemma_place_at(sorted.drop_last(), meal, at);
        assert(sorted.insert(at, meal) == sorted.drop_last().insert(at, meal).push(sorted.last()));
    }
}

/// Placing a meal into a rising run leaves it rising, and adds just that meal.
pub proof fn lemma_place_keeps_order(sorted: Seq<MealView>, meal: MealView)
    requires
        rising(sorted),
    ensures
        rising(place(sorted, meal)),
        place(sorted, meal).len() == sorted.len() + 1,
        place(sorted, meal).to_multiset() == sorted.to_multiset().insert(meal),
    decreases sorted.len(),
{
    broadcast use vstd::seq_lib::group_to_multiset_ensures;

    if sorted.len() == 0 {
        assert(sorted == Seq::<MealView>::empty());
        assert(seq![meal] == Seq::<MealView>::empty().push(meal));
    } else if star_rank(sorted.last().stars) <= star_rank(meal.stars) {
        let out = sorted.push(meal);
        assert forall|i: int, j: int| 0 <= i <= j < out.len() implies star_rank(
            #[trigger] out[i].stars,
        ) <= star_rank(#[trigger] out[j].stars) by {
            if j == sorted.len() && i < sorted.len() {
                assert(star_rank(sorted[i].stars) <= star_rank(sorted[sorted.len() - 1].stars));
            }
        }
    } else {
        let rest = sorted.drop_last();
        assert forall|i: int, j: int| 0 <= i <= j < rest.len() implies star_rank(
            #[trigger] rest[i].stars,
        ) <= star_rank(#[trigger] rest[j].stars) by {
            assert(rest[i] == sorted[i] && rest[j] == sorted[j]);
        }
        lemma_place_keeps_order(rest, meal);
        let inner = place(rest, meal);
        let out = inner.push(sorted.last());
        assert(sorted == rest.push(sorted.last()));
        assert forall|k: int| 0 <= k < inner.len() implies star_rank(
            #[trigger] inner[k].stars,
        ) <= star_rank(sorted.last().stars) by {
            assert(inner.to_multiset().contains(inner[k]));
            if inner[k] == meal {
            } else {
                assert(rest.to_multiset().contains(inner[k]));
                let w = choose|w: int| 0 <= w < rest.len() && rest[w] == inner[k];
                assert(star_rank(sorted[w].stars) <= star_rank(sorted[sorted.len() - 1].stars));
            }
        }
        assert forall|i: int, j: int| 0 <= i <= j < out.len() implies star_rank(
            #[trigger] out[i].stars,
        ) <= star_rank(#[trigger] out[j].stars) by {
            if j < inner.len() {
                assert(out[i] == inner[i] && out[j] == inner[j]);
            } else if i < inner.len() {
                assert(out[i] == inner[i]);
            }
        }
        assert(out.to_multiset() =~= sorted.to_multiset().insert(meal));
    }
}

/// The order by stars is rising, and holds the same meals, each as often
/// as it came.
pub proof fn by_stars_is_a_rising_rearrangement(meals: Seq<MealView>)
    ensures
        rising(by_stars(meals)),
        by_stars(meals).len() == meals.len(),
        by_stars(meals).to_multiset() == meals.to_multiset(),
    decreases meals.len(),
{
    broadcast use vstd::seq_lib::group_to_multiset_ensures;

    if meals.len() == 0 {
        assert(meals == Seq::<MealView>::empty());
    } else {
        by_stars_is_a_rising_rearrangement(meals.drop_last());
        lemma_place_keeps_order(by_stars(meals.drop_last()), meals.last());
        assert(meals == meals.drop_last().push(meals.last()));
    }
}

/// The test that a meal has the rank `rank`.
pub open spec fn ranks_at(rank: int) -> spec_fn(MealView) -> bool {
    |meal: MealView| star_rank(meal.stars) == rank
}

/// Placing a meal puts it behind the meals of its rank, and leaves the
/// meals of every rank in their order.
proof fn lemma_place_keeps_ranks(sorted: Seq<MealView>, meal: MealView, rank: int)
    ensures
        place(sorted, meal).filter(ranks_at(rank)) == if star_rank(meal.stars) == rank {
            sorted.filter(ranks_at(rank)).push(meal)
        } else {
            sorted.filter(ranks_at(rank))
        },
    decreases sorted.len(),
{
    let of_rank = ranks_at(rank);
    if sorted.len() == 0 {
        assert(sorted == Seq::<MealView>::empty());
        assert(seq![meal] == Seq::<MealView>::empty().push(meal));
        Seq::lemma_filter_push(Seq::<MealView>::empty(), meal, of_rank);
    } else if star_rank(sorted.last().stars) <= star_rank(meal.stars) {
        Seq::lemma_filter_push(sorted, meal, of_rank);
    } else {
        let rest = sorted.drop_last();
        lemma_place_keeps_ranks(rest, meal, rank);
        assert(sorted == rest.push(sorted.last()));
        Seq::lemma_filter_push(rest, sorted.last(), of_rank);
        Seq::lemma_filter_push(place(rest, meal), sorted.last(), of_rank);
    }
}

/// The order by stars is stable: the meals of one rank stand in the order
/// they came in.
pub proof fn by_stars_keeps_order_within_a_rank(meals: Seq<MealView>, rank: int)
    ensures
        by_stars(meals).filter(ranks_at(rank)) == meals.filter(ranks_at(rank)),
    decreases meals.len(),
{
    if meals.len() == 0 {
        assert(meals == Seq::<MealView>::empty());
    } else {
        let earlier = meals.drop_last();
        by_stars_keeps_order_within_a_rank(earlier, rank);
        lemma_place_keeps_ranks(by_stars(earlier), meals.last(), rank);
        assert(meals == earlier.push(meals.last()));
        Seq::lemma_filter_push(earlier, meals.last(), ranks_at(rank));
    }
}

/// Orders meals by rising rank; meals of one rank keep their order.
pub fn sort_by_stars(meals: &Vec<Meal>) -> (sorted: Vec<Meal>)
    ensures
        meal_views(sorted@) == by_stars(meal_views(meals@)),
{
    let mut sorted: Vec<Meal> = Vec::new();
    let mut taken: usize = 0;
    proof {
        assert(meal_views(meals@).take(0) == Seq::<MealView>::empty());
        assert(meal_views(sorted@) == Seq::<MealView>::empty());
    }
    while taken < meals.len()
        invariant
            taken <= meals.len(),
            sorted@.len() == taken,
            meal_views(sorted@) == by_stars(meal_views(meals@).take(taken as int)),
        decreases meals.len() - taken,
    {
        let meal = meals[taken].duplicate();
        let mut at: usize = sorted.len();
        while at > 0 && outranks(sorted[at - 1].stars, meal.stars)
            invariant
                at <= sorted@.len(),
                forall|k: int|
                    at <= k < sorted@.len() ==> star_rank((#[trigger] sorted@[k]).stars)
                        > star_rank(meal.stars),
            decreases at,
        {
            at -= 1;
        }
        proof {
            let all = meal_views(meals@);
            let before = meal_views(sorted@);
            by_stars_is_a_rising_rearrangement(all.take(taken as int));
            assert forall|k: int| at <= k < before.len() implies star_rank(
                #[trigger] before[k].stars,
            ) > star_rank(meal@.stars) by {
                assert(before[k] == sorted@[k]@);
            }
            if at > 0 {
                assert(before[at - 1] == sorted@[at - 1]@);
            }
            lemma_place_at(before, meal@, at as int);
            assert(all.take(taken + 1).drop_last() == all.take(taken as int));
            assert(all.take(taken + 1).last() == meal@);
        }
        let ghost before = sorted@;
        sorted.insert(at, meal);
        proof {
            assert(meal_views(sorted@) == meal_views(before).insert(at as int, meal@));
        }
        taken += 1;
    }
    proof {
        assert(meal_views(meals@).take(taken as int) == meal_views(meals@));
    }
    sorted
}

/// Whether rating `a` ranks above rating `b`.
pub fn outranks(a: Option<i32>, b: Option<i32>) -> (above: bool)
    ensures
        above == (star_rank(a) > star_rank(b)),
{
    match (a, b) {
        (None, _) => false,
        (Some(_), None) => true,
        (Some(x), Some(y)) => x > y,
    }
}

/// The meals in the opposite order.
pub fn reversed(meals: &Vec<Meal>) -> (turned: Vec<Meal>)
    ensures
        meal_views(turned@) == meal_views(meals@).reverse(),
{
    let mut turned: Vec<Meal> = Vec::new();
    let mut left: usize = meals.len();
    while left > 0
        invariant
            left <= meals.len(),
            turned@.len() == meals.len() - left,
            forall|k: int|
                0 <= k < turned@.len() ==> (#[trigger] turned@[k])@ == meals@[meals.len() - 1 - k]@,
        decreases left,
    {
        left -= 1;
        turned.push(meals[left].duplicate());
    }
    proof {
        assert(meal_views(turned@) =~= meal_views(meals@).reverse());
    }
    turned
}

/// Orders meals by falling rank: the rising order, turned round.
pub fn sort_by_stars_desc(meals: &Vec<Meal>) -> (sorted: Vec<Meal>)
    ensures
        meal_views(sorted@) == by_stars_desc(meal_views(meals@)),
{
    let rising = sort_by_stars(meals);
    reversed(&rising)
}

} // verus!
