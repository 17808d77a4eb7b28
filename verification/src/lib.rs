//! A small persistence layer for short stories.
//!
//! Two kinds of story are kept, each in a table of its own inside one local
//! SQLite database: stories generated from a structured prompt (subject, verb,
//! object, setting, consequences) and stories written freely under an author
//! name. Both kinds can be saved, listed newest first, and deleted by id.
//! Saving a story whose content is already stored is silently ignored.
//!
//! What the database does with a statement is SQLite's business and is not
//! proved here. What is proved is the store's own part: which statement is
//! built from which request, how the answers of the database are turned into
//! what the caller is told, and that none of it can panic.
//!
//! * [`record`] holds the plain values that cross the boundary.
//! * [`statement`] holds every SQL statement the store issues, as data.
//! * [`failure`] says what the caller is told of a database call.
//! * [`listing`] says how a list is gathered from the answers of a cursor.
//! * [`sqlite`] is the unverified edge: the calls into `rusqlite`.
//! * [`store`] is the story store itself.
use vstd::prelude::*;

pub mod failure;
pub mod listing;
pub mod record;
pub mod sqlite;
pub mod statement;
pub mod store;

pub use record::{
    SelfWrittenStoryPayload, SelfWrittenStoryRow, SelfWrittenStoryRowView, SelfWrittenStoryView,
    StoryPayload, StoryPayloadView, StoryRow, StoryRowView,
};
pub use statement::{SqlStatement, SqlStatementView, SqlValue, SqlValueView};
pub use store::StoryStore;

verus! {

/// Name of the database file inside the application's data directory.
pub const DATABASE_FILE_NAME: &'static str = "stories.db";

} // verus!
