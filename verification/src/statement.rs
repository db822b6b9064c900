//! The statements that the store sends to the engine: the persisted layout
//! and, for each operation, the SQL text with the values bound to it.

use vstd::prelude::*;
use crate::record::{Message, MessageView};
use crate::value::{SqlParam, SqlParamView};

verus! {

/// Creates the log of chat turns unless it is there already.
pub const CREATE_MESSAGES_SQL: &'static str =
    "CREATE TABLE IF NOT EXISTS messages (id INTEGER PRIMARY KEY, workspace_id INTEGER NOT NULL, sender TEXT NOT NULL, text TEXT NOT NULL, created_at TEXT NOT NULL)";

/// Creates the relation of plans, one row per workspace, unless it is there
/// already.
pub const CREATE_PLANS_SQL: &'static str =
    "CREATE TABLE IF NOT EXISTS plans (workspace_id INTEGER PRIMARY KEY, steps TEXT NOT NULL)";

/// Appends a chat turn. The engine assigns `id` and stamps `created_at` with
/// its own clock.
pub const INSERT_MESSAGE_SQL: &'static str =
    "INSERT INTO messages (workspace_id, sender, text, created_at) VALUES (?1, ?2, ?3, datetime('now'))";

/// Lists the chat turns of a workspace, the most recent first.
pub const SELECT_MESSAGES_SQL: &'static str =
    "SELECT * FROM messages WHERE workspace_id = ?1 ORDER BY id DESC";

/// Writes the plan of a workspace in place of the one it had, if any.
pub const UPSERT_PLAN_SQL: &'static str =
    "INSERT OR REPLACE INTO plans (workspace_id, steps) VALUES (?1, ?2)";

/// Reads the `steps` column of the plan of a workspace.
pub const SELECT_PLAN_SQL: &'static str = "SELECT steps FROM plans WHERE workspace_id = ?1";

/// Deletes every chat turn of a workspace.
pub const DELETE_MESSAGES_SQL: &'static str = "DELETE FROM messages WHERE workspace_id = ?1";

/// Deletes the plan of a workspace.
pub const DELETE_PLAN_SQL: &'static str = "DELETE FROM plans WHERE workspace_id = ?1";

/// A statement as it is handed to the engine: the SQL text and the values for
/// its placeholders `?1`, `?2`, ... in that order.
#[derive(Debug, PartialEq, Eq)]
pub struct Statement {
    pub sql: &'static str,
    pub params: Vec<SqlParam>,
}

/// What a [`Statement`] holds, as mathematical values.
pub struct StatementView {
    pub sql: Seq<char>,
    pub params: Seq<SqlParamView>,
}

impl View for Statement {
    type V = StatementView;

    open spec fn view(&self) -> StatementView {
        StatementView { sql: self.sql@, params: self.params.deep_view() }
    }
}

impl StatementView {
    /// The statement `sql` without placeholders.
    pub open spec fn plain(sql: Seq<char>) -> StatementView {
        StatementView { sql, params: Seq::empty() }
    }

    /// The statement `sql` whose only placeholder is bound to a workspace.
    pub open spec fn of_workspace(sql: Seq<char>, workspace_id: int) -> StatementView {
        StatementView { sql, params: seq![SqlParamView::Integer(workspace_id)] }
    }

    /// The statement that creates the log of chat turns.
    pub open spec fn create_messages() -> StatementView {
        StatementView::plain(CREATE_MESSAGES_SQL@)
    }

    /// The statement that creates the relation of plans.
    pub open spec fn create_plans() -> StatementView {
        StatementView::plain(CREATE_PLANS_SQL@)
    }

    /// The statement that appends `message`: it binds the workspace, the
    /// sender and the text, in that order, and nothing else of `message`.
    pub open spec fn insert_message(message: MessageView) -> StatementView {
        StatementView {
            sql: INSERT_MESSAGE_SQL@,
            params: seq![
                SqlParamView::Integer(message.workspace_id),
                SqlParamView::Text(message.sender),
                SqlParamView::Text(message.text),
            ],
        }
    }

    /// The query for the chat turns of a workspace.
    pub open spec fn select_messages(workspace_id: int) -> StatementView {
        StatementView::of_workspace(SELECT_MESSAGES_SQL@, workspace_id)
    }

    /// The statement that writes `steps_json` as the plan of a workspace.
    pub open spec fn upsert_plan(workspace_id: int, steps_json: Seq<char>) -> StatementView {
        StatementView {
            sql: UPSERT_PLAN_SQL@,
            params: seq![SqlParamView::Integer(workspace_id), SqlParamView::Text(steps_json)],
        }
    }

    /// The query for the stored steps of the plan of a workspace.
    pub open spec fn select_plan(workspace_id: int) -> StatementView {
        StatementView::of_workspace(SELECT_PLAN_SQL@, workspace_id)
    }

    /// The statement that deletes every chat turn of a workspace.
    pub open spec fn delete_messages(workspace_id: int) -> StatementView {
        StatementView::of_workspace(DELETE_MESSAGES_SQL@, workspace_id)
    }

    /// The statement that deletes the plan of a workspace.
    pub open spec fn delete_plan(workspace_id: int) -> StatementView {
        StatementView::of_workspace(DELETE_PLAN_SQL@, workspace_id)
    }
}

impl Statement {
    /// A statement without placeholders.
    fn plain(sql: &'static str) -> (s: Statement)
        ensures
            s@ == StatementView::plain(sql@),
    {
        let s = Statement { sql, params: Vec::new() };
        assert(s.params.deep_view() =~= Seq::<SqlParamView>::empty());
        s
    }

    /// A statement whose only placeholder is a workspace.
    fn of_workspace(sql: &'static str, workspace_id: i32) -> (s: Statement)
        ensures
            s@ == StatementView::of_workspace(sql@, workspace_id as int),
    {
        let mut params: Vec<SqlParam> = Vec::new();
        params.push(SqlParam::Integer(workspace_id as i64));
        let s = Statement { sql, params };
        assert(s.params.deep_view() =~= seq![SqlParamView::Integer(workspace_id as int)]);
        s
    }

    /// The statement that creates the log of chat turns.
    pub fn create_messages() -> (s: Statement)
        ensures
            s@ == StatementView::create_messages(),
    {
        Statement::plain(CREATE_MESSAGES_SQL)
    }

    /// The statement that creates the relation of plans.
    pub fn create_plans() -> (s: Statement)
        ensures
            s@ == StatementView::create_plans(),
    {
        Statement::plain(CREATE_PLANS_SQL)
    }

    /// The statement that appends `message`.
    ///
    /// It binds the workspace, the sender and the text, in that order, and
    /// nothing else: neither `id` nor `created_at` of `message` is written.
    pub fn insert_message(message: &Message) -> (s: Statement)
        ensures
            s@ == StatementView::insert_message(message@),
    {
        let mut params: Vec<SqlParam> = Vec::new();
        params.push(SqlParam::Integer(message.workspace_id as i64));
        params.push(SqlParam::Text(message.sender.clone()));
        params.push(SqlParam::Text(message.text.clone()));
        let s = Statement { sql: INSERT_MESSAGE_SQL, params };
        assert(s.params.deep_view() =~= StatementView::insert_message(message@).params);
        s
    }

    /// The query for the chat turns of `workspace_id`, the most recent first.
    pub fn select_messages(workspace_id: i32) -> (s: Statement)
        ensures
            s@ == StatementView::select_messages(workspace_id as int),
    {
        Statement::of_workspace(SELECT_MESSAGES_SQL, workspace_id)
    }

    /// The statement that writes `steps_json` as the plan of `workspace_id`,
    /// in place of the plan that the workspace had.
    pub fn upsert_plan(workspace_id: i32, steps_json: String) -> (s: Statement)
        ensures
            s@ == StatementView::upsert_plan(workspace_id as int, steps_json@),
    {
        let ghost text = steps_json@;
        let mut params: Vec<SqlParam> = Vec::new();
        params.push(SqlParam::Integer(workspace_id as i64));
        params.push(SqlParam::Text(steps_json));
        let s = Statement { sql: UPSERT_PLAN_SQL, params };
        assert(s.params.deep_view() =~= StatementView::upsert_plan(
            workspace_id as int,
            text,
        ).params);
        s
    }

    /// The query for the stored steps of the plan of `workspace_id`.
    pub fn select_plan(workspace_id: i32) -> (s: Statement)
        ensures
            s@ == StatementView::select_plan(workspace_id as int),
    {
        Statement::of_workspace(SELECT_PLAN_SQL, workspace_id)
    }

    /// The statement that deletes every chat turn of `workspace_id`.
    pub fn delete_messages(workspace_id: i32) -> (s: Statement)
        ensures
            s@ == StatementView::delete_messages(workspace_id as int),
    {
        Statement::of_workspace(DELETE_MESSAGES_SQL, workspace_id)
    }

    /// The statement that deletes the plan of `workspace_id`.
    pub fn delete_plan(workspace_id: i32) -> (s: Statement)
        ensures
            s@ == StatementView::delete_plan(workspace_id as int),
    {
        Statement::of_workspace(DELETE_PLAN_SQL, workspace_id)
    }
}

} // verus!
