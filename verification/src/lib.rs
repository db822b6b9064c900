//! A workspace store on SQLite: the chat history of one workspace and its
//! current task plan.
//!
//! The store keeps two relations. `messages` is an append-only log of chat
//! turns; `plans` holds at most one row per workspace, whose `steps` column is
//! a JSON array of strings. A workspace without a plan gets the empty plan
//! when its plan is first read.
//!
//! What the database holds is the engine's business, and no contract here
//! speaks of it. What is proved is this crate's side of every exchange:
//!
//! - which statements an operation enters in the journal of its [`Store`],
//!   with which values bound, and in which order ([`Statement`], [`store`]);
//! - what an operation returns for every answer that the engine may give
//!   ([`row`], [`json`], and the contracts in [`store`]);
//! - which path a location of the database file resolves to, over what the
//!   file system makes of a path and a name ([`location`]);
//! - that the columns of a chat turn are read in the order in which they are
//!   written ([`laws`]).
//!
//! The journal is ghost state that this crate keeps itself. What it records
//! is what the three functions that call the engine enter, each next to its
//! call: the path before the opening, the statement beside the text and the
//! values that are handed over. That an entry and the call beside it agree
//! is plain from those few lines of [`store`], and is not proved.
//!
//! The calls into `rusqlite`, `serde_json`, `dirs` and `std::path` are the
//! only code that is taken on trust; they stand in [`engine`], [`json`] and
//! [`location`].

pub mod engine;
pub mod error;
pub mod json;
pub mod laws;
pub mod location;
pub mod record;
pub mod row;
pub mod statement;
pub mod store;
pub mod value;

pub use crate::error::{RowError, StoreError};
pub use crate::location::{database_path_under, get_database_path, DatabasePath};
pub use crate::record::{Message, Plan, WORKSPACE_ID};
pub use crate::statement::Statement;
pub use crate::store::{
    create_tables, get_db, get_messages, get_plan, reset_database, save_message, save_plan, Store,
};
pub use crate::value::{ColumnType, SqlParam, SqlValue};
