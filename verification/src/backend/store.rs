//! The key-value store behind the handlers: what it can answer, and a table
//! in memory that answers as the store is meant to.

use crate::shared::{Meal, MealView};
use std::collections::HashMap;
use vstd::prelude::*;
use vstd::std_specs::iter::IteratorSpec;

verus! {

broadcast use vstd::std_specs::hash::group_hash_axioms;

/// What the store answers to a lookup by id.
#[derive(Debug, Clone, PartialEq, Eq)]
pub enum Fetched {
    Found(Meal),
    /// No record under that id.
    Missing,
    /// A record is there, but it does not read as a meal.
    Unreadable(String),
    /// The store could not be asked, or refused.
    Failed(String),
}

/// What the store answers to a write or a delete.
#[derive(Debug, Clone, PartialEq, Eq)]
pub enum Written {
    Done,
    Failed(String),
}

/// One record of a scan.
#[derive(Debug, Clone, PartialEq, Eq)]
pub enum Scanned {
    Meal(Meal),
    /// A record that does not read as a meal.
    Unreadable(String),
}

/// What the store answers to a scan of the whole table.
#[derive(Debug, Clone, PartialEq, Eq)]
pub enum Listing {
    Items(Vec<Scanned>),
    Failed(String),
}

pub enum FetchedView {
    Found(MealView),
    Missing,
    Unreadable(Seq<char>),
    Failed(Seq<char>),
}

pub enum WrittenView {
    Done,
    Failed(Seq<char>),
}

pub enum ScannedView {
    Meal(MealView),
    Unreadable(Seq<char>),
}

pub enum ListingView {
    Items(Seq<ScannedView>),
    Failed(Seq<char>),
}

impl View for Fetched {
    type V = FetchedView;

    open spec fn view(&self) -> FetchedView {
        match self {
            Fetched::Found(m) => FetchedView::Found(m@),
            Fetched::Missing => FetchedView::Missing,
            Fetched::Unreadable(e) => FetchedView::Unreadable(e@),
            Fetched::Failed(e) => FetchedView::Failed(e@),
        }
    }
}

impl View for Written {
    type V = WrittenView;

    open spec fn view(&self) -> WrittenView {
        match self {
            Written::Done => WrittenView::Done,
            Written::Failed(e) => WrittenView::Failed(e@),
        }
    }
}

impl View for Scanned {
    type V = ScannedView;

    open spec fn view(&self) -> ScannedView {
        match self {
            Scanned::Meal(m) => ScannedView::Meal(m@),
            Scanned::Unreadable(e) => ScannedView::Unreadable(e@),
        }
    }
}

/// The views of a run of scanned records, in the same order.
pub open spec fn scanned_views(items: Seq<Scanned>) -> Seq<ScannedView> {
    items.map_values(|s: Scanned| s@)
}

impl View for Listing {
    type V = ListingView;

    open spec fn view(&self) -> ListingView {
        match self {
            Listing::Items(items) => ListingView::Items(scanned_views(items@)),
            Listing::Failed(e) => ListingView::Failed(e@),
        }
    }
}

/// What a handler asks of the store.
#[derive(Debug, Clone, PartialEq, Eq)]
pub enum Ask {
    /// The meal under this id.
    Get(u128),
    /// All the meals.
    Scan,
    /// To keep this new meal under its id.
    Create(Meal),
    /// To keep this meal under its id, in place of what stands there.
    Update(Meal),
    /// To remove what stands under this id.
    Delete(u128),
}

pub enum AskView {
    Get(u128),
    Scan,
    Create(MealView),
    Update(MealView),
    Delete(u128),
}

impl View for Ask {
    type V = AskView;

    open spec fn view(&self) -> AskView {
        match self {
            Ask::Get(id) => AskView::Get(*id),
            Ask::Scan => AskView::Scan,
            Ask::Create(meal) => AskView::Create(meal@),
            Ask::Update(meal) => AskView::Update(meal@),
            Ask::Delete(id) => AskView::Delete(*id),
        }
    }
}

/// What the store answers.
#[derive(Debug, Clone, PartialEq, Eq)]
pub enum Answer {
    Fetched(Fetched),
    Listed(Listing),
    Written(Written),
}

pub enum AnswerView {
    Fetched(FetchedView),
    Listed(ListingView),
    Written(WrittenView),
}

impl View for Answer {
    type V = AnswerView;

    open spec fn view(&self) -> AnswerView {
        match self {
            Answer::Fetched(fetched) => AnswerView::Fetched(fetched@),
            Answer::Listed(listing) => AnswerView::Listed(listing@),
            Answer::Written(written) => AnswerView::Written(written@),
        }
    }
}

/// The contents of a table: each stored meal under its id.
pub type Contents = Map<u128, MealView>;

/// Every record stands under its own id, and there are finitely many.
pub open spec fn well_keyed(table: Contents) -> bool {
    &&& table.dom().finite()
    &&& forall|id: u128| #[trigger] table.contains_key(id) ==> table[id].id == id
}

/// Whether every record of a scan reads as a meal.
pub open spec fn all_readable(items: Seq<ScannedView>) -> bool {
    forall|i: int| 0 <= i < items.len() ==> #[trigger] items[i] is Meal
}

/// The meals of a scan in which every record reads as one.
pub open spec fn scanned_meals(items: Seq<ScannedView>) -> Seq<MealView> {
    items.map_values(|item: ScannedView| item->Meal_0)
}

/// `items` lists the table: every record once, in some order.
pub open spec fn lists(items: Seq<MealView>, table: Contents) -> bool {
    &&& items.len() == table.len()
    &&& forall|i: int|
        0 <= i < items.len() ==> table.contains_key(#[trigger] items[i].id) && table[items[i].id]
            == items[i]
    &&& forall|i: int, j: int|
        0 <= i < j < items.len() ==> #[trigger] items[i].id != #[trigger] items[j].id
}

/// A table of meals in memory. It never fails, and it behaves as the store
/// is meant to: a write replaces what stood under the id, a delete of an
/// absent id changes nothing.
pub struct MealTable {
    items: HashMap<u128, Meal>,
}

impl View for MealTable {
    type V = Contents;

    closed spec fn view(&self) -> Contents {
        Map::new(
            |id: u128| self.items@.contains_key(id),
            |id: u128| self.items@[id]@.with_id(id),
        )
    }
}

impl MealTable {
    /// Every table is well keyed.
    pub proof fn table_is_well_keyed(&self)
        ensures
            well_keyed(self@),
    {
        assert(self@.dom() =~= self.items@.dom());
    }

    /// An empty table.
    pub fn new() -> (table: MealTable)
        ensures
            table@ == Map::<u128, MealView>::empty(),
    {
        let table = MealTable { items: HashMap::new() };
        proof {
            assert(table@ =~= Map::<u128, MealView>::empty());
        }
        table
    }

    /// How many meals the table holds.
    pub fn len(&self) -> (n: usize)
        ensures
            n == self@.len(),
    {
        proof {
            assert(self@.dom() =~= self.items@.dom());
        }
        self.items.len()
    }

    /// Looks a meal up.
    pub fn get_item(&self, id: u128) -> (fetched: Fetched)
        ensures
            fetched@ == fetch_of(self@, id),
    {
        match self.items.get(&id) {
            Some(meal) => Fetched::Found(meal.duplicate().with_id(id)),
            None => Fetched::Missing,
        }
    }

    /// Stores a meal under its id, in place of what stood there.
    pub fn put_item(&mut self, meal: Meal) -> (written: Written)
        ensures
            written@ == WrittenView::Done,
            final(self)@ == old(self)@.insert(meal.id, meal@),
    {
        let id = meal.id;
        self.items.insert(id, meal);
        proof {
            assert(self@ =~= old(self)@.insert(meal.id, meal@));
        }
        Written::Done
    }

    /// Removes what stands under an id, if anything.
    pub fn delete_item(&mut self, id: u128) -> (written: Written)
        ensures
            written@ == WrittenView::Done,
            final(self)@ == old(self)@.remove(id),
    {
        self.items.remove(&id);
        proof {
            assert(self@ =~= old(self)@.remove(id));
        }
        Written::Done
    }

    /// All the meals of the table, each once, in no particular order.
    pub fn scan(&self) -> (listing: Listing)
        ensures
            listing@ matches ListingView::Items(items) && all_readable(items) && lists(
                scanned_meals(items),
                self@,
            ),
    {
        proof {
            assert(self@.dom() =~= self.items@.dom());
        }
        let mut meals: Vec<Scanned> = Vec::new();
        let ghost pairs = vstd::std_specs::hash::spec_hash_map_iter(&self.items).remaining();
        for pair in it: self.items.iter()
            invariant
                it.seq() == pairs,
                meals@.len() == it.index(),
                it.seq().len() == self.items@.dom().len(),
                it.seq().no_duplicates(),
                forall|i: int|
                    0 <= i < it.seq().len() ==> self.items@.contains_key(*it.seq()[i].0)
                        && self.items@[*it.seq()[i].0] == *it.seq()[i].1,
                forall|i: int|
                    0 <= i < meals@.len() ==> meals@[i]@ == ScannedView::Meal(
                        (*it.seq()[i].1)@.with_id(*it.seq()[i].0),
                    ),
        {
            meals.push(Scanned::Meal(pair.1.duplicate().with_id(*pair.0)));
        }
        proof {
            let views = scanned_meals(scanned_views(meals@));
            assert(views.len() == pairs.len());
            assert forall|i: int| 0 <= i < views.len() implies self@.contains_key(
                #[trigger] views[i].id,
            ) && self@[views[i].id] == views[i] by {
                assert(views[i].id == *pairs[i].0);
            }
            assert forall|i: int, j: int| 0 <= i < j < views.len() implies #[trigger] views[i].id
                != #[trigger] views[j].id by {
                if views[i].id == views[j].id {
                    assert(*pairs[i].0 == *pairs[j].0);
                    assert(*pairs[i].1 == *pairs[j].1);
                    assert(pairs[i] == pairs[j]);
                }
            }
        }
        Listing::Items(meals)
    }
}

/// Whether `answer` and `after` are what a table in memory answers and
/// holds once it was asked `ask` while holding `before`: a lookup and a scan
/// change nothing, a scan lists every meal once in some order, a write puts
/// the meal under its id, a delete removes what stands under the id.
pub open spec fn performed(
    before: Contents,
    ask: AskView,
    answer: AnswerView,
    after: Contents,
) -> bool {
    match ask {
        AskView::Get(id) => after == before && answer == AnswerView::Fetched(
            fetch_of(before, id),
        ),
        AskView::Scan => {
            &&& after == before
            &&& answer matches AnswerView::Listed(ListingView::Items(items))
            &&& all_readable(items)
            &&& lists(scanned_meals(items), before)
        },
        AskView::Create(meal) => after == before.insert(meal.id, meal) && answer
            == AnswerView::Written(WrittenView::Done),
        AskView::Update(meal) => after == before.insert(meal.id, meal) && answer
            == AnswerView::Written(WrittenView::Done),
        AskView::Delete(id) => after == before.remove(id) && answer == AnswerView::Written(
            WrittenView::Done,
        ),
    }
}

impl MealTable {
    /// Answers what a handler asks.
    pub fn perform(&mut self, ask: &Ask) -> (answer: Answer)
        ensures
            performed(old(self)@, ask@, answer@, final(self)@),
    {
        match ask {
            Ask::Get(id) => Answer::Fetched(self.get_item(*id)),
            Ask::Scan => Answer::Listed(self.scan()),
            Ask::Create(meal) => Answer::Written(self.put_item(meal.duplicate())),
            Ask::Update(meal) => Answer::Written(self.put_item(meal.duplicate())),
            Ask::Delete(id) => Answer::Written(self.delete_item(*id)),
        }
    }
}

/// What a lookup in a table finds.
pub open spec fn fetch_of(table: Contents, id: u128) -> FetchedView {
    if table.contains_key(id) {
        FetchedView::Found(table[id])
    } else {
        FetchedView::Missing
    }
}

} // verus!
