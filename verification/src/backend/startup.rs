//! What happens before the first request: the table is made sure of, with a
//! bounded number of attempts, and the two seed meals are written.
//!
//! The store is reached over the network, so the steps are written as a
//! machine: the caller performs each action and reports what came of it.

use crate::backend::server::Backend;
use crate::shared::{Meal, MealView};
use crate::text::{contains_text, occurs_in, remove_char, without};
use vstd::prelude::*;
use vstd::string::StringExecFns;

verus! {

/// How often the table is asked for before start-up gives up.
pub const MAX_ATTEMPTS: u32 = 10;

/// How long to wait between two attempts, in milliseconds.
pub const RETRY_DELAY_MILLIS: u64 = 5_000;

/// The id of the first seed meal, `f11b1c5e-d6d8-4dce-8a9d-9e05d870b881`.
pub const BURRITOS_ID: u128 = 0xf11b1c5e_d6d8_4dce_8a9d_9e05d870b881;

/// The id of the second seed meal, `936da01f-9abd-4d9d-80c7-02af85c822a8`.
pub const PIZZA_ID: u128 = 0x936da01f_9abd_4d9d_80c7_02af85c822a8;

/// Where a client of the store or of the object storage connects to.
#[derive(Debug, Clone, PartialEq, Eq)]
pub enum Endpoint {
    /// The managed service in region `us-west-2`, with the credentials of
    /// the profile.
    Managed,
    /// A stand-in at the given address, under the region name `us-east-1`.
    Local { endpoint: String },
}

pub enum EndpointView {
    Managed,
    Local { endpoint: Seq<char> },
}

impl View for Endpoint {
    type V = EndpointView;

    open spec fn view(&self) -> EndpointView {
        match self {
            Endpoint::Managed => EndpointView::Managed,
            Endpoint::Local { endpoint } => EndpointView::Local { endpoint: endpoint@ },
        }
    }
}

/// The endpoint for a configured address: the managed service where the
/// address holds nothing but line breaks, else the address as it stands.
pub open spec fn endpoint_for(loc: Seq<char>) -> EndpointView {
    if without(loc, '\n').len() == 0 {
        EndpointView::Managed
    } else {
        EndpointView::Local { endpoint: loc }
    }
}

/// Chooses the endpoint for a configured address.
pub fn choose_endpoint(loc: &str) -> (endpoint: Endpoint)
    ensures
        endpoint@ == endpoint_for(loc@),
{
    if remove_char(loc, '\n').as_str().is_empty() {
        Endpoint::Managed
    } else {
        Endpoint::Local { endpoint: String::from_str(loc) }
    }
}

/// Where the client of the key-value store connects to.
pub fn get_dynamodb_client(dynamodb_loc: &str) -> (endpoint: Endpoint)
    ensures
        endpoint@ == endpoint_for(dynamodb_loc@),
{
    choose_endpoint(dynamodb_loc)
}

/// The table of the meals, as the store is asked to create it.
#[derive(Debug, Clone, PartialEq, Eq)]
pub struct TableSchema {
    pub table_name: String,
    /// The record field that is the partition key.
    pub key_name: String,
    pub key_type: String,
    pub attribute_type: String,
    pub read_capacity_units: i64,
    pub write_capacity_units: i64,
}

/// The schema of the meals table: keyed by the string `id`, with a small
/// fixed throughput.
pub fn table_schema() -> (schema: TableSchema)
    ensures
        schema.table_name@ == "meals"@,
        schema.key_name@ == "id"@,
        schema.key_type@ == "HASH"@,
        schema.attribute_type@ == "S"@,
        schema.read_capacity_units == 10,
        schema.write_capacity_units == 10,
{
    TableSchema {
        table_name: String::from_str("meals"),
        key_name: String::from_str("id"),
        key_type: String::from_str("HASH"),
        attribute_type: String::from_str("S"),
        read_capacity_units: 10,
        write_capacity_units: 10,
    }
}

/// What the store answered to the request to create the table.
#[derive(Debug, Clone, PartialEq, Eq)]
pub enum TableOutcome {
    Created,
    /// The store's complaint, in its words.
    Failed(String),
}

pub enum TableOutcomeView {
    Created,
    Failed(Seq<char>),
}

impl View for TableOutcome {
    type V = TableOutcomeView;

    open spec fn view(&self) -> TableOutcomeView {
        match self {
            TableOutcome::Created => TableOutcomeView::Created,
            TableOutcome::Failed(e) => TableOutcomeView::Failed(e@),
        }
    }
}

/// The table can be used once it was created, or once the store complains
/// that it is there already, in either of the two wordings in use.
pub open spec fn table_usable(outcome: TableOutcomeView) -> bool {
    match outcome {
        TableOutcomeView::Created => true,
        TableOutcomeView::Failed(message) => occurs_in(message, "preexisting table"@) || occurs_in(
            message,
            "Table already exists"@,
        ),
    }
}

/// Whether the table can be used, given the answer to its creation.
pub fn is_db_avail(outcome: &TableOutcome) -> (usable: bool)
    ensures
        usable == table_usable(outcome@),
{
    match outcome {
        TableOutcome::Created => true,
        TableOutcome::Failed(message) => contains_text(message.as_str(), "preexisting table")
            || contains_text(message.as_str(), "Table already exists"),
    }
}

/// The first seed meal.
pub open spec fn burritos() -> MealView {
    MealView {
        name: "Burritos"@,
        id: BURRITOS_ID,
        photos: None,
        description: "Amazing burritos"@,
        stars: Some(4),
    }
}

/// The second seed meal.
pub open spec fn pizza() -> MealView {
    MealView {
        name: "Pizza"@,
        id: PIZZA_ID,
        photos: None,
        description: "Delicious pizza"@,
        stars: Some(5),
    }
}

/// The first seed meal.
pub fn seed_burritos() -> (meal: Meal)
    ensures
        meal@ == burritos(),
{
    Meal {
        name: String::from_str("Burritos"),
        id: BURRITOS_ID,
        photos: None,
        description: String::from_str("Amazing burritos"),
        stars: Some(4),
    }
}

/// The second seed meal.
pub fn seed_pizza() -> (meal: Meal)
    ensures
        meal@ == pizza(),
{
    Meal {
        name: String::from_str("Pizza"),
        id: PIZZA_ID,
        photos: None,
        description: String::from_str("Delicious pizza"),
        stars: Some(5),
    }
}

/// Where start-up stands.
#[derive(Debug, Clone, Copy, PartialEq, Eq, Structural)]
pub enum Phase {
    /// The table was asked for and the answer is awaited; `failed` earlier
    /// attempts did not make it usable.
    Probing { failed: u32 },
    /// An attempt failed, and the delay before the next one is running.
    Waiting { failed: u32 },
    /// The table is usable and the first seed meal is being written.
    SeedingFirst,
    /// The second seed meal is being written.
    SeedingSecond,
    /// Start-up is done; requests may be served.
    Serving,
    /// The table never became usable; the process must not serve.
    Aborted,
}

/// What the caller reports.
#[derive(Debug, Clone, PartialEq, Eq)]
pub enum Event {
    /// The store answered the request to create the table.
    TableAnswered(TableOutcome),
    /// The delay is over.
    Waited,
    /// The store answered the write of a seed meal; whether it succeeded
    /// does not matter.
    SeedWritten,
}

pub enum EventView {
    TableAnswered(TableOutcomeView),
    Waited,
    SeedWritten,
}

impl View for Event {
    type V = EventView;

    open spec fn view(&self) -> EventView {
        match self {
            Event::TableAnswered(outcome) => EventView::TableAnswered(outcome@),
            Event::Waited => EventView::Waited,
            Event::SeedWritten => EventView::SeedWritten,
        }
    }
}

/// What the caller is to do next.
#[derive(Debug, Clone, PartialEq, Eq)]
pub enum Action {
    /// Ask the store to create the table.
    CreateTable,
    /// Wait this many milliseconds.
    Wait(u64),
    /// Write this meal, over whatever stands under its id.
    PutSeed(Meal),
    /// Start serving requests.
    Serve,
    /// Stop the process: the store is not there.
    Abort,
}

pub enum ActionView {
    CreateTable,
    Wait(u64),
    PutSeed(MealView),
    Serve,
    Abort,
}

impl View for Action {
    type V = ActionView;

    open spec fn view(&self) -> ActionView {
        match self {
            Action::CreateTable => ActionView::CreateTable,
            Action::Wait(millis) => ActionView::Wait(*millis),
            Action::PutSeed(meal) => ActionView::PutSeed(meal@),
            Action::Serve => ActionView::Serve,
            Action::Abort => ActionView::Abort,
        }
    }
}

/// The action that a phase waits on.
pub open spec fn owed(phase: Phase) -> ActionView {
    match phase {
        Phase::Probing { .. } => ActionView::CreateTable,
        Phase::Waiting { .. } => ActionView::Wait(RETRY_DELAY_MILLIS),
        Phase::SeedingFirst => ActionView::PutSeed(burritos()),
        Phase::SeedingSecond => ActionView::PutSeed(pizza()),
        Phase::Serving => ActionView::Serve,
        Phase::Aborted => ActionView::Abort,
    }
}

/// The phase after an event. An event that the phase does not wait on
/// changes nothing.
pub open spec fn next_phase(phase: Phase, event: EventView) -> Phase {
    match (phase, event) {
        (Phase::Probing { failed }, EventView::TableAnswered(outcome)) => {
            if table_usable(outcome) {
                Phase::SeedingFirst
            } else if failed + 1 >= MAX_ATTEMPTS {
                Phase::Aborted
            } else {
                Phase::Waiting { failed: (failed + 1) as u32 }
            }
        },
        (Phase::Waiting { failed }, EventView::Waited) => Phase::Probing { failed },
        (Phase::SeedingFirst, EventView::SeedWritten) => Phase::SeedingSecond,
        (Phase::SeedingSecond, EventView::SeedWritten) => Phase::Serving,
        _ => phase,
    }
}

/// The phase in which start-up begins; its first action is to ask for the table.
pub open spec fn initial_phase() -> Phase {
    Phase::Probing { failed: 0 }
}

/// The action that a phase waits on.
pub fn action_owed(phase: Phase) -> (action: Action)
    ensures
        action@ == owed(phase),
{
    match phase {
        Phase::Probing { .. } => Action::CreateTable,
        Phase::Waiting { .. } => Action::Wait(RETRY_DELAY_MILLIS),
        Phase::SeedingFirst => Action::PutSeed(seed_burritos()),
        Phase::SeedingSecond => Action::PutSeed(seed_pizza()),
        Phase::Serving => Action::Serve,
        Phase::Aborted => Action::Abort,
    }
}

/// Begins start-up.
pub fn begin() -> (step: (Phase, Action))
    ensures
        step.0 == initial_phase(),
        step.1@ == owed(initial_phase()),
{
    (Phase::Probing { failed: 0 }, Action::CreateTable)
}

/// One step of start-up: takes what the caller reports and says where
/// start-up stands now and what to do next.
///
/// The table is asked for until it is usable, at most [`MAX_ATTEMPTS`] times
/// with a delay between the attempts; then the two seed meals are written,
/// and only then are requests served.
pub fn prepopulate_db(phase: Phase, event: &Event) -> (step: (Phase, Action))
    ensures
        step.0 == next_phase(phase, event@),
        step.1@ == owed(step.0),
{
    let next = match (phase, event) {
        (Phase::Probing { failed }, Event::TableAnswered(outcome)) => {
            if is_db_avail(outcome) {
                Phase::SeedingFirst
            } else if failed >= MAX_ATTEMPTS - 1 {
                Phase::Aborted
            } else {
                Phase::Waiting { failed: failed + 1 }
            }
        },
        (Phase::Waiting { failed }, Event::Waited) => Phase::Probing { failed },
        (Phase::SeedingFirst, Event::SeedWritten) => Phase::SeedingSecond,
        (Phase::SeedingSecond, Event::SeedWritten) => Phase::Serving,
        _ => phase,
    };
    (next, action_owed(next))
}

/// The phase after a run of events.
pub open spec fn phase_after(phase: Phase, events: Seq<EventView>) -> Phase
    decreases events.len(),
{
    if events.len() == 0 {
        phase
    } else {
        next_phase(phase_after(phase, events.drop_last()), events.last())
    }
}

/// How many failed attempts a phase has behind it, as far as it counts them.
pub open spec fn failures(phase: Phase) -> int {
    match phase {
        Phase::Probing { failed } => failed as int,
        Phase::Waiting { failed } => failed as int,
        _ => 0,
    }
}

/// A phase that start-up can be in: while it waits for the table, fewer
/// attempts have failed than it is allowed.
pub open spec fn reachable(phase: Phase) -> bool {
    match phase {
        Phase::Probing { failed } => failed < MAX_ATTEMPTS,
        Phase::Waiting { failed } => 0 < failed < MAX_ATTEMPTS,
        _ => true,
    }
}

/// Start-up never counts more failed attempts than it is allowed, whatever
/// the caller reports.
pub proof fn attempts_stay_bounded(events: Seq<EventView>)
    ensures
        reachable(phase_after(initial_phase(), events)),
    decreases events.len(),
{
    if events.len() > 0 {
        attempts_stay_bounded(events.drop_last());
    }
}

/// The attempt that fails when all but one of the allowed attempts have
/// failed before ends start-up; an earlier failure leads to a delay and
/// another attempt.
pub proof fn last_failure_aborts(failed: u32, outcome: TableOutcomeView)
    requires
        failed < MAX_ATTEMPTS,
        !table_usable(outcome),
    ensures
        failed == MAX_ATTEMPTS - 1 ==> next_phase(
            Phase::Probing { failed },
            EventView::TableAnswered(outcome),
        ) == Phase::Aborted,
        failed < MAX_ATTEMPTS - 1 ==> next_phase(
            next_phase(Phase::Probing { failed }, EventView::TableAnswered(outcome)),
            EventView::Waited,
        ) == (Phase::Probing { failed: (failed + 1) as u32 }),
{
}

/// What is reported while the table stays unusable: `n` answers that do not
/// make it usable, with the delay between each two.
pub open spec fn failed_attempts(n: nat, outcome: TableOutcomeView) -> Seq<EventView>
    decreases n,
{
    if n == 0 {
        Seq::empty()
    } else if n == 1 {
        seq![EventView::TableAnswered(outcome)]
    } else {
        failed_attempts((n - 1) as nat, outcome).push(EventView::Waited).push(
            EventView::TableAnswered(outcome),
        )
    }
}

/// While the table stays unusable, start-up waits after each failed attempt
/// but the last that it is allowed; that one ends it.
pub proof fn unusable_table_aborts_startup(n: nat, outcome: TableOutcomeView)
    requires
        !table_usable(outcome),
        1 <= n <= MAX_ATTEMPTS,
    ensures
        n < MAX_ATTEMPTS ==> phase_after(initial_phase(), failed_attempts(n, outcome)) == (
        Phase::Waiting { failed: n as u32 }),
        n == MAX_ATTEMPTS ==> phase_after(initial_phase(), failed_attempts(n, outcome))
            == Phase::Aborted,
    decreases n,
{
    let events = failed_attempts(n, outcome);
    if n == 1 {
        assert(events.drop_last() == Seq::<EventView>::empty());
        assert(phase_after(initial_phase(), events.drop_last()) == initial_phase());
    } else {
        let earlier = failed_attempts((n - 1) as nat, outcome);
        unusable_table_aborts_startup((n - 1) as nat, outcome);
        let waited = earlier.push(EventView::Waited);
        assert(events == waited.push(EventView::TableAnswered(outcome)));
        assert(events.drop_last() == waited);
        assert(waited.drop_last() == earlier);
        assert(phase_after(initial_phase(), waited) == (Phase::Probing {
            failed: (n - 1) as u32,
        }));
    }
}

/// Once start-up has ended, either way, nothing that is reported changes it.
pub proof fn end_is_final(event: EventView)
    ensures
        next_phase(Phase::Serving, event) == Phase::Serving,
        next_phase(Phase::Aborted, event) == Phase::Aborted,
{
}

/// Requests are served only after both seed meals were written, and those
/// only once the table was usable: the one step into serving comes from the
/// second seed, the one into the second seed from the first, and the one
/// into the first from an answer that makes the table usable.
pub proof fn serving_comes_after_seeding(phase: Phase, event: EventView)
    ensures
        next_phase(phase, event) == Phase::Serving ==> phase == Phase::Serving || phase
            == Phase::SeedingSecond,
        next_phase(phase, event) == Phase::SeedingSecond ==> phase == Phase::SeedingSecond
            || phase == Phase::SeedingFirst,
        next_phase(phase, event) == Phase::SeedingFirst ==> phase == Phase::SeedingFirst || (phase
            is Probing && event is TableAnswered && table_usable(event->TableAnswered_0)),
{
}

impl Backend {
    /// Writes the two seed meals into the table in memory, over whatever
    /// stands under their ids.
    pub fn prepopulate_db(&mut self)
        ensures
            final(self).settings == old(self).settings,
            final(self)@.issued == old(self)@.issued,
            final(self)@.meals == old(self)@.meals.insert(BURRITOS_ID, burritos()).insert(
                PIZZA_ID,
                pizza(),
            ),
    {
        self.meals.put_item(seed_burritos());
        self.meals.put_item(seed_pizza());
    }
}

} // verus!
