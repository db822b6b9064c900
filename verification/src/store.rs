//! The operations of the store on an open database.
//!
//! What the engine answers depends on what the database holds, and nothing
//! here claims to know it. A [`Store`] keeps instead, as ghost state, the
//! journal of its exchanges with the engine: what it handed over, with the
//! answer that came back. The contract of an operation says which exchanges
//! it enters, in which order, and what it returns for every answer that the
//! engine may give. The journal is entered by `open`, `run` and `fetch`,
//! each beside its call into the engine; that the call is handed what is
//! entered is read in those functions, not proved.

use vstd::prelude::*;
use crate::engine::{
    cell_of, engine_value, execute, from_engine, open_connection, query_rows, to_engine,
};
use crate::error::{RowError, StoreError};
use crate::json::{decode_plan, encode_plan, json_steps, json_text};
use crate::location::{resolved, DatabasePath};
use crate::record::{Message, MessageView, Plan, WORKSPACE_ID};
use crate::row::{
    messages_from_rows, plan_text_from_rows, plan_text_of_rows, rows_fail_with, rows_give,
};
use crate::statement::{Statement, StatementView};
use crate::value::{SqlParam, SqlValue, SqlValueView};

verus! {

/// One exchange with the engine: what was handed to it and the answer that
/// came back.
pub enum Exchange {
    /// The database at this path was opened, and the engine gave the
    /// connection that the store holds.
    Opened { path: std::path::PathBuf },
    /// A statement that returns no rows; on success the engine says how many
    /// rows it changed.
    Executed { statement: StatementView, outcome: Result<usize, rusqlite::Error> },
    /// A query; on success the engine yields rows, in its order.
    Queried { statement: StatementView, answer: Result<Seq<Seq<SqlValueView>>, rusqlite::Error> },
}

/// The exchanges by which the journal `after` is longer than the journal
/// `before`, or `None` where `after` does not begin with `before`.
pub open spec fn added(before: Seq<Exchange>, after: Seq<Exchange>) -> Option<Seq<Exchange>> {
    if before.is_prefix_of(after) {
        Some(after.skip(before.len() as int))
    } else {
        None
    }
}

/// An open database with the journal of what was sent to it through this
/// value.
///
/// The journal is ghost state and costs nothing at run time. It is entered
/// by the three functions of this module that call the engine, one exchange
/// for each call, and by nothing else. Each of them enters what it hands to
/// the engine in the lines next to the call; that the two agree is read
/// there, not proved.
pub struct Store {
    conn: rusqlite::Connection,
    journal: Ghost<Seq<Exchange>>,
}

impl Store {
    /// The exchanges with the engine so far, the oldest first.
    pub closed spec fn journal(&self) -> Seq<Exchange> {
        self.journal@
    }

    /// The connection that the store sends its statements to.
    pub closed spec fn handle(&self) -> rusqlite::Connection {
        self.conn
    }

    /// A store on `conn`, with nothing sent yet and no record of how `conn`
    /// was opened. The relations of the store are not created: see
    /// [`create_tables`].
    pub fn new(conn: rusqlite::Connection) -> (store: Store)
        ensures
            store.journal() == Seq::<Exchange>::empty(),
            store.handle() == conn,
    {
        Store { conn, journal: Ghost(Seq::empty()) }
    }

    /// The connection of the store, for what the store has no operation for.
    pub fn connection(&self) -> (conn: &rusqlite::Connection)
        ensures
            *conn == self.handle(),
    {
        &self.conn
    }
}

/// The answer to a query as the journal holds it: the rows by their values.
pub open spec fn answer_of(outcome: Result<Vec<Vec<SqlValue>>, rusqlite::Error>) -> Result<
    Seq<Seq<SqlValueView>>,
    rusqlite::Error,
> {
    match outcome {
        Ok(rows) => Ok(rows.deep_view()),
        Err(e) => Err(e),
    }
}

/// What a statement that returns no rows comes to: success, or the error of
/// the engine as it came.
pub open spec fn written(outcome: Result<usize, rusqlite::Error>) -> Result<(), StoreError> {
    match outcome {
        Ok(_) => Ok(()),
        Err(e) => Err(StoreError::Storage(e)),
    }
}

/// What the two deletions of a reset come to: success where both succeeded,
/// otherwise the error of the first that failed.
pub open spec fn both_written(
    messages: Result<usize, rusqlite::Error>,
    plan: Result<usize, rusqlite::Error>,
) -> Result<(), StoreError> {
    match messages {
        Err(e) => Err(StoreError::Storage(e)),
        Ok(_) => written(plan),
    }
}

/// What the rows of a plan query say of the plan of a workspace.
pub enum PlanReading {
    /// There is no row: the workspace has no plan.
    Missing,
    /// The first row holds these steps.
    Found(Seq<Seq<char>>),
    /// The first column of the first row is no text.
    Unreadable(RowError),
    /// The stored text is no JSON array of strings.
    Undecodable,
}

/// Reads the rows of a plan query: the first column of the first row, taken
/// as the stored steps.
pub open spec fn plan_of_rows(rows: Seq<Seq<SqlValueView>>) -> PlanReading {
    match plan_text_of_rows(rows) {
        Err(e) => PlanReading::Unreadable(e),
        Ok(None) => PlanReading::Missing,
        Ok(Some(text)) => match json_steps(text) {
            Some(steps) => PlanReading::Found(steps),
            None => PlanReading::Undecodable,
        },
    }
}

/// [`create_tables`]: the chat turns are created first, and the plans only
/// where that succeeded.
pub open spec fn creates_tables(by: Seq<Exchange>, r: Result<(), StoreError>) -> bool {
    &&& by.len() >= 1
    &&& by[0] matches Exchange::Executed { statement, outcome }
    &&& statement == StatementView::create_messages()
    &&& match outcome {
        Err(e) => by.len() == 1 && r == Err::<(), StoreError>(StoreError::Storage(e)),
        Ok(_) => {
            &&& by.len() == 2
            &&& by[1] matches Exchange::Executed { statement, outcome }
            &&& statement == StatementView::create_plans()
            &&& r == written(outcome)
        },
    }
}

/// [`get_db`]: the database is opened at the path that the location resolves
/// to, and then the two relations are created, both with success.
pub open spec fn opens_database(
    journal: Seq<Exchange>,
    base: std::path::PathBuf,
    below: Seq<Seq<char>>,
) -> bool {
    &&& journal.len() >= 1
    &&& journal[0] == Exchange::Opened { path: resolved(base, below) }
    &&& creates_tables(journal.skip(1), Ok(()))
}

/// [`save_message`]: one insertion, which binds the workspace, the sender and
/// the text of the message.
pub open spec fn saves_message(
    by: Seq<Exchange>,
    message: MessageView,
    r: Result<(), StoreError>,
) -> bool {
    &&& by.len() == 1
    &&& by[0] matches Exchange::Executed { statement, outcome }
    &&& statement == StatementView::insert_message(message)
    &&& r == written(outcome)
}

/// [`get_messages`]: one query for the chat turns of the workspace, whose
/// rows are read in the order in which the engine yields them.
pub open spec fn lists_messages(by: Seq<Exchange>, r: Result<Vec<Message>, StoreError>) -> bool {
    &&& by.len() == 1
    &&& by[0] matches Exchange::Queried { statement, answer }
    &&& statement == StatementView::select_messages(WORKSPACE_ID as int)
    &&& match answer {
        Err(e) => r == Err::<Vec<Message>, StoreError>(StoreError::Storage(e)),
        Ok(rows) => match r {
            Ok(messages) => rows_give(rows, messages.deep_view()),
            Err(e) => e matches StoreError::Row(unreadable) && rows_fail_with(rows, unreadable),
        },
    }
}

/// [`save_plan`]: where the steps can be encoded, one statement that writes
/// their text as the plan of the workspace; where they cannot, nothing is
/// sent.
pub open spec fn saves_plan(
    by: Seq<Exchange>,
    workspace_id: int,
    plan: Seq<Seq<char>>,
    r: Result<(), StoreError>,
) -> bool {
    match json_text(plan) {
        None => by.len() == 0 && (r matches Err(e) && e is Encode),
        Some(text) => {
            &&& by.len() == 1
            &&& by[0] matches Exchange::Executed { statement, outcome }
            &&& statement == StatementView::upsert_plan(workspace_id, text)
            &&& r == written(outcome)
        },
    }
}

/// [`get_plan`]: one query for the stored steps of the workspace; and where
/// it yields no row, the empty plan is written as [`save_plan`] writes it,
/// and is returned only where that succeeded.
pub open spec fn gets_plan(by: Seq<Exchange>, r: Result<Plan, StoreError>) -> bool {
    &&& by.len() >= 1
    &&& by[0] matches Exchange::Queried { statement, answer }
    &&& statement == StatementView::select_plan(WORKSPACE_ID as int)
    &&& match answer {
        Err(e) => by.len() == 1 && r == Err::<Plan, StoreError>(StoreError::Storage(e)),
        Ok(rows) => match plan_of_rows(rows) {
            PlanReading::Found(steps) => by.len() == 1 && (r matches Ok(plan) && plan@ == steps),
            PlanReading::Unreadable(e) => by.len() == 1 && r == Err::<Plan, StoreError>(
                StoreError::Row(e),
            ),
            PlanReading::Undecodable => by.len() == 1 && (r matches Err(e) && e is Decode),
            PlanReading::Missing => match r {
                Ok(plan) => {
                    &&& plan@ == Seq::<Seq<char>>::empty()
                    &&& saves_plan(by.skip(1), WORKSPACE_ID as int, Seq::empty(), Ok(()))
                },
                Err(e) => saves_plan(by.skip(1), WORKSPACE_ID as int, Seq::empty(), Err(e)),
            },
        },
    }
}

/// [`reset_database`]: the deletion of the chat turns and then the deletion
/// of the plan, both sent whatever the engine answers to the first. The
/// error, if any, is that of the first deletion that failed.
pub open spec fn resets(by: Seq<Exchange>, r: Result<(), StoreError>) -> bool {
    &&& by.len() == 2
    &&& by[0] matches Exchange::Executed { statement: first, outcome: messages }
    &&& first == StatementView::delete_messages(WORKSPACE_ID as int)
    &&& by[1] matches Exchange::Executed { statement: second, outcome: plan }
    &&& second == StatementView::delete_plan(WORKSPACE_ID as int)
    &&& r == both_written(messages, plan)
}

/// A journal that grew twice grew by both additions, in their order.
proof fn lemma_added_twice(
    before: Seq<Exchange>,
    between: Seq<Exchange>,
    after: Seq<Exchange>,
)
    requires
        added(before, between) is Some,
        added(between, after) is Some,
    ensures
        added(before, after) == Some(added(before, between)->0 + added(between, after)->0),
{
}

/// The values of `params` in the representation of the engine, one for one
/// and in their order.
fn bind(params: &Vec<SqlParam>) -> (bound: Vec<rusqlite::types::Value>)
    ensures
        bound.len() == params.len(),
        forall|i: int| 0 <= i < params.len() ==> #[trigger] bound@[i] == engine_value(params@[i]@),
{
    let mut bound: Vec<rusqlite::types::Value> = Vec::new();
    let mut at: usize = 0;
    while at < params.len()
        invariant
            at <= params.len(),
            bound.len() == at,
            forall|i: int| 0 <= i < at ==> #[trigger] bound@[i] == engine_value(params@[i]@),
        decreases params.len() - at,
    {
        bound.push(to_engine(&params[at]));
        at = at + 1;
    }
    bound
}

/// The column values of one row that the engine returned, one for one and in
/// their order.
fn read_row(row: &Vec<rusqlite::types::Value>) -> (cells: Vec<SqlValue>)
    ensures
        cells.len() == row.len(),
        forall|j: int| 0 <= j < row.len() ==> (#[trigger] cells@[j])@ == cell_of(row@[j]),
{
    let mut cells: Vec<SqlValue> = Vec::new();
    let mut at: usize = 0;
    while at < row.len()
        invariant
            at <= row.len(),
            cells.len() == at,
            forall|j: int| 0 <= j < at ==> (#[trigger] cells@[j])@ == cell_of(row@[j]),
        decreases row.len() - at,
    {
        cells.push(from_engine(&row[at]));
        at = at + 1;
    }
    cells
}

/// The rows that the engine returned, row by row and in their order, each
/// with its column values one for one.
fn read_rows(found: &Vec<Vec<rusqlite::types::Value>>) -> (rows: Vec<Vec<SqlValue>>)
    ensures
        rows.len() == found.len(),
        forall|i: int|
            0 <= i < found.len() ==> (#[trigger] rows@[i]).len() == found@[i].len(),
        forall|i: int, j: int|
            0 <= i < found.len() && 0 <= j < found@[i].len() ==> (#[trigger] rows@[i]@[j])@
                == cell_of(found@[i]@[j]),
{
    let mut rows: Vec<Vec<SqlValue>> = Vec::new();
    let mut at: usize = 0;
    while at < found.len()
        invariant
            at <= found.len(),
            rows.len() == at,
            forall|i: int| 0 <= i < at ==> (#[trigger] rows@[i]).len() == found@[i].len(),
            forall|i: int, j: int|
                0 <= i < at && 0 <= j < found@[i].len() ==> (#[trigger] rows@[i]@[j])@ == cell_of(
                    found@[i]@[j],
                ),
        decreases found.len() - at,
    {
        rows.push(read_row(&found[at]));
        at = at + 1;
    }
    rows
}

/// Sends a statement that returns no rows, and enters the exchange in the
/// journal.
fn run(store: &mut Store, statement: &Statement) -> (outcome: Result<usize, rusqlite::Error>)
    ensures
        final(store).journal() == old(store).journal().push(
            Exchange::Executed { statement: statement@, outcome },
        ),
        final(store).handle() == old(store).handle(),
{
    let bound = bind(&statement.params);
    let outcome = execute(&store.conn, statement.sql, &bound);
    store.journal = Ghost(
        store.journal@.push(Exchange::Executed { statement: statement@, outcome }),
    );
    outcome
}

/// Sends a query, collects its rows in the order in which the engine yields
/// them, and enters the exchange in the journal.
fn fetch(store: &mut Store, statement: &Statement) -> (outcome: Result<
    Vec<Vec<SqlValue>>,
    rusqlite::Error,
>)
    ensures
        final(store).journal() == old(store).journal().push(
            Exchange::Queried { statement: statement@, answer: answer_of(outcome) },
        ),
        final(store).handle() == old(store).handle(),
{
    let bound = bind(&statement.params);
    let outcome = match query_rows(&store.conn, statement.sql, &bound) {
        Err(e) => Err(e),
        Ok(found) => Ok(read_rows(&found)),
    };
    store.journal = Ghost(
        store.journal@.push(
            Exchange::Queried { statement: statement@, answer: answer_of(outcome) },
        ),
    );
    outcome
}

/// The outcome of an operation that sends one statement, given what the
/// engine answered: success, or the error of the engine as it came.
pub fn write_outcome(outcome: Result<usize, rusqlite::Error>) -> (r: Result<(), StoreError>)
    ensures
        r == written(outcome),
{
    match outcome {
        Ok(_) => Ok(()),
        Err(e) => Err(StoreError::Storage(e)),
    }
}

/// The outcome of a reset, given what the engine answered to the deletion of
/// the chat turns and to the deletion of the plan: success where both
/// succeeded, otherwise the error of the first that failed.
pub fn reset_outcome(
    messages: Result<usize, rusqlite::Error>,
    plan: Result<usize, rusqlite::Error>,
) -> (r: Result<(), StoreError>)
    ensures
        r == both_written(messages, plan),
{
    match messages {
        Err(e) => Err(StoreError::Storage(e)),
        Ok(_) => write_outcome(plan),
    }
}

/// Creates the two relations of the store unless they are there already:
/// first the chat turns, then the plans. Safe on every open: the statements
/// leave what exists as it is.
pub fn create_tables(store: &mut Store) -> (r: Result<(), StoreError>)
    ensures
        added(old(store).journal(), final(store).journal()) matches Some(by) && creates_tables(
            by,
            r,
        ),
        final(store).handle() == old(store).handle(),
{
    let first = run(store, &Statement::create_messages());
    match first {
        Err(e) => Err(StoreError::Storage(e)),
        Ok(_) => {
                    let second = run(store, &Statement::create_plans());
            write_outcome(second)
        },
    }
}

/// Opens the database at `file` and enters the opening in the journal of the
/// store that it gives.
fn open(file: std::path::PathBuf) -> (r: Result<Store, rusqlite::Error>)
    ensures
        r matches Ok(store) ==> store.journal() == Seq::empty().push(
            Exchange::Opened { path: file },
        ),
{
    match open_connection(&file) {
        Ok(conn) => {
            let journal = Ghost(Seq::empty().push(Exchange::Opened { path: file }));
            Ok(Store { conn, journal })
        },
        Err(e) => Err(e),
    }
}

/// Opens the database file at `path`, creating the file if it is absent,
/// and creates the relations of the store in it unless they are there.
///
/// The file that is opened is the one that `path` resolves to. The store
/// that is returned has been opened there, has then sent the two statements
/// of [`create_tables`] and nothing else, and both succeeded. Every failure
/// is an error of the engine, from the opening or from one of the
/// statements.
pub fn get_db(path: DatabasePath) -> (r: Result<Store, StoreError>)
    ensures
        match r {
            Ok(store) => opens_database(store.journal(), path.base, path.below.deep_view()),
            Err(e) => e is Storage,
        },
{
    let file = path.resolve();
    let mut store = match open(file) {
        Ok(store) => store,
        Err(e) => {
            return Err(StoreError::Storage(e));
        },
    };
    let ghost opened = store.journal();
    match create_tables(&mut store) {
        Ok(()) => {
            assert(store.journal()[0] == opened[0]);
            Ok(store)
        },
        Err(e) => Err(e),
    }
}

/// Appends `message` to the chat turns of its workspace. The engine assigns
/// `id` and `created_at`; those of `message` are not sent.
pub fn save_message(store: &mut Store, message: &Message) -> (r: Result<(), StoreError>)
    ensures
        added(old(store).journal(), final(store).journal()) matches Some(by) && saves_message(
            by,
            message@,
            r,
        ),
        final(store).handle() == old(store).handle(),
{
    let outcome = run(store, &Statement::insert_message(message));
    write_outcome(outcome)
}

/// Lists the chat turns of the workspace in the order in which the engine
/// yields them, which the query asks to be from the most recent to the
/// oldest. A row that cannot be read fails the whole call.
pub fn get_messages(store: &mut Store) -> (r: Result<Vec<Message>, StoreError>)
    ensures
        added(old(store).journal(), final(store).journal()) matches Some(by) && lists_messages(
            by,
            r,
        ),
        final(store).handle() == old(store).handle(),
{
    let outcome = fetch(store, &Statement::select_messages(WORKSPACE_ID));
    match outcome {
        Err(e) => Err(StoreError::Storage(e)),
        Ok(rows) => match messages_from_rows(&rows) {
            Ok(messages) => Ok(messages),
            Err(e) => Err(StoreError::Row(e)),
        },
    }
}

/// Writes `plan` as the plan of `workspace_id`, in place of the plan that the
/// workspace had.
///
/// Where the steps cannot be encoded, nothing is sent and the error is
/// [`StoreError::Encode`].
pub fn save_plan(store: &mut Store, workspace_id: i32, plan: &Plan) -> (r: Result<(), StoreError>)
    ensures
        added(old(store).journal(), final(store).journal()) matches Some(by) && saves_plan(
            by,
            workspace_id as int,
            plan@,
            r,
        ),
        final(store).handle() == old(store).handle(),
{
    let steps_json = match encode_plan(plan) {
        Ok(text) => text,
        Err(e) => {
            return Err(e);
        },
    };
    let outcome = run(store, &Statement::upsert_plan(workspace_id, steps_json));
    write_outcome(outcome)
}

/// What the rows of a plan query say of the plan of a workspace.
///
/// No row: the workspace has no plan. Otherwise the first column of the first
/// row is read as the stored steps: a value that is no text is a
/// [`StoreError::Row`], a text that is no JSON array of strings is a
/// [`StoreError::Decode`], and every other text gives the plan with exactly
/// the steps that it lists, in their order.
pub fn plan_from_rows(rows: &Vec<Vec<SqlValue>>) -> (r: Result<Option<Plan>, StoreError>)
    ensures
        match plan_of_rows(rows.deep_view()) {
            PlanReading::Missing => r matches Ok(None),
            PlanReading::Found(steps) => r matches Ok(Some(plan)) && plan@ == steps,
            PlanReading::Unreadable(e) => r == Err::<Option<Plan>, StoreError>(StoreError::Row(e)),
            PlanReading::Undecodable => r matches Err(e) && e is Decode,
        },
{
    match plan_text_from_rows(rows) {
        Err(e) => Err(StoreError::Row(e)),
        Ok(None) => Ok(None),
        Ok(Some(text)) => match decode_plan(text.as_str()) {
            Ok(plan) => Ok(Some(plan)),
            Err(e) => Err(e),
        },
    }
}

/// The current plan of the workspace.
///
/// Where the workspace has a plan, that plan as it is stored. Where it has
/// none, the empty plan, which is written as the plan of the workspace before
/// it is returned: reading a workspace without a plan gives it one.
pub fn get_plan(store: &mut Store) -> (r: Result<Plan, StoreError>)
    ensures
        added(old(store).journal(), final(store).journal()) matches Some(by) && gets_plan(by, r),
        final(store).handle() == old(store).handle(),
{
    let ghost before = store.journal();
    let outcome = fetch(store, &Statement::select_plan(WORKSPACE_ID));
    let ghost between = store.journal();
    let rows = match outcome {
        Ok(rows) => rows,
        Err(e) => {
            return Err(StoreError::Storage(e));
        },
    };
    match plan_from_rows(&rows) {
        Err(e) => Err(e),
        Ok(Some(plan)) => Ok(plan),
        Ok(None) => {
            let plan = Plan::empty();
            let saved = save_plan(store, WORKSPACE_ID, &plan);
            proof {
                lemma_added_twice(before, between, store.journal());
            }
            match saved {
                Ok(()) => Ok(plan),
                Err(e) => Err(e),
            }
        },
    }
}

/// Deletes the chat turns and the plan of the workspace.
///
/// Both deletions are sent, the chat turns first; neither is skipped because
/// the other failed. The two are not one transaction: where one of them
/// fails, the other may have taken effect.
pub fn reset_database(store: &mut Store) -> (r: Result<(), StoreError>)
    ensures
        added(old(store).journal(), final(store).journal()) matches Some(by) && resets(by, r),
        final(store).handle() == old(store).handle(),
{
    let messages = run(store, &Statement::delete_messages(WORKSPACE_ID));
    let plan = run(store, &Statement::delete_plan(WORKSPACE_ID));
    reset_outcome(messages, plan)
}

} // verus!
