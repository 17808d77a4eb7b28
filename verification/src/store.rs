//! The story store: one database connection and the operations on it.
//!
//! The store is a handle. The rows live in the database file, and every
//! operation is one or more statements of [`crate::statement`] handed to the
//! connection. Whether a statement succeeds, and what a query yields, is
//! decided by the database; the store decides which statement runs, in which
//! order, and what the caller is told:
//!
//! * a failure of the database comes back as the text that `rusqlite` gives
//!   for it, and the operation is abandoned at that point, with no retry;
//! * a list is handed out whole or not at all.
//!
//! Operations take `&self`, as the connection underneath does. Callers that
//! share a store between threads put it behind a lock of their own.
use vstd::prelude::*;
use crate::failure::{acknowledge, describe_failure, reports_database_failure};
use crate::listing::{advance, Listing, TOO_MANY_ROWS};
use crate::record::{
    is_self_written_row, is_story_row, self_written_row_of, story_row_of, SelfWrittenStoryPayload,
    SelfWrittenStoryRow, StoryPayload, StoryRow,
};
use crate::sqlite::{
    cells, column_integer, column_text, execute, execute_batch, next_row, open_connection,
    prepare, query, standing, Cell,
};
use crate::statement::{
    delete_self_written_statement, delete_story_statement, is_schema_text, is_write,
    save_self_written_statement, save_story_statement, schema_steps, SqlStatement,
    SELECT_SELF_WRITTEN, SELECT_STORIES,
};

verus! {

/// Reads the row that a cursor over [`SELECT_STORIES`] stands on: the eight
/// columns in order, stopping at the first that cannot be read. The answer
/// is a story exactly where the row holds an integer and then seven texts,
/// and the story is then made of these, column by column.
fn read_story_row(row: &rusqlite::Row<'_>) -> (r: Result<StoryRow, rusqlite::Error>)
    ensures
        match r {
            Ok(story) => is_story_row(cells(*row)) && story@ == story_row_of(cells(*row)),
            Err(_) => !is_story_row(cells(*row)),
        },
{
    let id = column_integer(row, 0)?;
    let story = column_text(row, 1)?;
    let subject = column_text(row, 2)?;
    let verb = column_text(row, 3)?;
    let object = column_text(row, 4)?;
    let setting = column_text(row, 5)?;
    let consequences = column_text(row, 6)?;
    let created_at = column_text(row, 7)?;
    Ok(StoryRow::from_columns(id, story, subject, verb, object, setting, consequences, created_at))
}

/// Reads the row that a cursor over [`SELECT_SELF_WRITTEN`] stands on: the
/// four columns in order, stopping at the first that cannot be read. The
/// answer is a story exactly where the row holds an integer and then three
/// texts, and the story is then made of these, column by column.
fn read_self_written_row(row: &rusqlite::Row<'_>) -> (r: Result<
    SelfWrittenStoryRow,
    rusqlite::Error,
>)
    ensures
        match r {
            Ok(story) => is_self_written_row(cells(*row)) && story@ == self_written_row_of(
                cells(*row),
            ),
            Err(_) => !is_self_written_row(cells(*row)),
        },
{
    let id = column_integer(row, 0)?;
    let story = column_text(row, 1)?;
    let name = column_text(row, 2)?;
    let created_at = column_text(row, 3)?;
    Ok(SelfWrittenStoryRow::from_columns(id, story, name, created_at))
}

/// What a step of a cursor over [`SELECT_STORIES`] answers, given what the
/// cursor stands on after the step: the story that the row reads as, where
/// it stands on a row and the row can be read; no story, where it stands on
/// no row; a failure, where it stands on a row that cannot be read, or where
/// it stands on no row because the step failed.
pub open spec fn answers_story(
    after: Option<Seq<Cell>>,
    r: Result<Option<StoryRow>, rusqlite::Error>,
) -> bool {
    match r {
        Ok(Some(story)) => match after {
            Some(cells) => is_story_row(cells) && story@ == story_row_of(cells),
            None => false,
        },
        Ok(None) => after is None,
        Err(_) => match after {
            Some(cells) => !is_story_row(cells),
            None => true,
        },
    }
}

/// What a step of a cursor over [`SELECT_SELF_WRITTEN`] answers, given what
/// the cursor stands on after the step; as [`answers_story`].
pub open spec fn answers_self_written(
    after: Option<Seq<Cell>>,
    r: Result<Option<SelfWrittenStoryRow>, rusqlite::Error>,
) -> bool {
    match r {
        Ok(Some(story)) => match after {
            Some(cells) => is_self_written_row(cells) && story@ == self_written_row_of(cells),
            None => false,
        },
        Ok(None) => after is None,
        Err(_) => match after {
            Some(cells) => !is_self_written_row(cells),
            None => true,
        },
    }
}

/// Steps a cursor over [`SELECT_STORIES`] and reads the row it comes to
/// stand on, if there is one.
fn next_story(rows: &mut rusqlite::Rows<'_>) -> (r: Result<Option<StoryRow>, rusqlite::Error>)
    ensures
        answers_story(standing(*final(rows)), r),
{
    match next_row(rows)? {
        None => Ok(None),
        Some(row) => Ok(Some(read_story_row(row)?)),
    }
}

/// Steps a cursor over [`SELECT_SELF_WRITTEN`] and reads the row it comes
/// to stand on, if there is one.
fn next_self_written(rows: &mut rusqlite::Rows<'_>) -> (r: Result<
    Option<SelfWrittenStoryRow>,
    rusqlite::Error,
>)
    ensures
        answers_self_written(standing(*final(rows)), r),
{
    match next_row(rows)? {
        None => Ok(None),
        Some(row) => Ok(Some(read_self_written_row(row)?)),
    }
}

/// The story store. It owns the one connection to the database.
pub struct StoryStore {
    conn: rusqlite::Connection,
}

impl StoryStore {
    /// Opens the database at `path`, creating the file if it is missing,
    /// and brings it to the current schema. `":memory:"` opens a private
    /// database that lives as long as the store.
    ///
    /// Any failure is final: no store is handed out.
    pub fn open(path: &str) -> (r: Result<StoryStore, String>)
        ensures
            r matches Err(m) ==> reports_database_failure(m),
    {
        let conn = describe_failure(open_connection(path))?;
        let store = StoryStore { conn };
        store.bootstrap()?;
        Ok(store)
    }

    /// Runs the schema statements in order and stops at the first that
    /// fails; what the earlier ones did stays done.
    ///
    /// Every statement is written so that it changes nothing where its work
    /// is already done.
    pub fn bootstrap(&self) -> (r: Result<(), String>)
        ensures
            r matches Err(m) ==> reports_database_failure(m),
    {
        let steps = schema_steps();
        let mut i: usize = 0;
        while i < steps.len()
            invariant
                i <= steps.len(),
                forall|j: int| 0 <= j < steps@.len() ==> is_schema_text((#[trigger] steps@[j])@),
            decreases steps.len() - i,
        {
            describe_failure(execute_batch(&self.conn, steps[i]))?;
            i += 1;
        }
        Ok(())
    }

    /// Hands `statement` to the database and tells the caller how it went.
    fn run(&self, statement: &SqlStatement) -> (r: Result<(), String>)
        requires
            is_write(statement@),
        ensures
            r matches Err(m) ==> reports_database_failure(m),
    {
        acknowledge(execute(&self.conn, statement))
    }

    /// Stores a prompt-generated story. Where a story with the same natural
    /// key is already stored the database ignores the insertion, and the
    /// caller is not told.
    pub fn save_story(&self, payload: StoryPayload) -> (r: Result<(), String>)
        ensures
            r matches Err(m) ==> reports_database_failure(m),
    {
        let statement = save_story_statement(payload);
        self.run(&statement)
    }

    /// All prompt-generated stories, newest first. Either every row that
    /// the database yielded is in the list, in the order in which it was
    /// yielded, or the call fails.
    pub fn list_stories(&self) -> (r: Result<Vec<StoryRow>, String>)
        ensures
            r matches Err(m) ==> reports_database_failure(m) || m@ == TOO_MANY_ROWS@,
    {
        let mut stmt = describe_failure(prepare(&self.conn, SELECT_STORIES))?;
        let mut rows = describe_failure(query(&mut stmt))?;
        let mut gathered: Vec<StoryRow> = Vec::new();
        loop
            decreases usize::MAX - gathered.len(),
        {
            match advance(gathered, next_story(&mut rows)) {
                Listing::Open(more) => {
                    gathered = more;
                },
                Listing::Closed(r) => {
                    return r;
                },
            }
        }
    }

    /// Removes the prompt-generated story `id`. Where no story has that id
    /// nothing is removed, and the caller is not told.
    pub fn delete_story(&self, id: i64) -> (r: Result<(), String>)
        ensures
            r matches Err(m) ==> reports_database_failure(m),
    {
        let statement = delete_story_statement(id);
        self.run(&statement)
    }

    /// Stores a self-written story. Where a story with the same natural key
    /// is already stored the database ignores the insertion, and the caller
    /// is not told.
    pub fn save_self_written_story(&self, payload: SelfWrittenStoryPayload) -> (r: Result<
        (),
        String,
    >)
        ensures
            r matches Err(m) ==> reports_database_failure(m),
    {
        let statement = save_self_written_statement(payload);
        self.run(&statement)
    }

    /// All self-written stories, newest first. Either every row that the
    /// database yielded is in the list, in the order in which it was
    /// yielded, or the call fails.
    pub fn list_self_written_stories(&self) -> (r: Result<Vec<SelfWrittenStoryRow>, String>)
        ensures
            r matches Err(m) ==> reports_database_failure(m) || m@ == TOO_MANY_ROWS@,
    {
        let mut stmt = describe_failure(prepare(&self.conn, SELECT_SELF_WRITTEN))?;
        let mut rows = describe_failure(query(&mut stmt))?;
        let mut gathered: Vec<SelfWrittenStoryRow> = Vec::new();
        loop
            decreases usize::MAX - gathered.len(),
        {
            match advance(gathered, next_self_written(&mut rows)) {
                Listing::Open(more) => {
                    gathered = more;
                },
                Listing::Closed(r) => {
                    return r;
                },
            }
        }
    }

    /// Removes the self-written story `id`. Where no story has that id
    /// nothing is removed, and the caller is not told.
    pub fn delete_self_written_story(&self, id: i64) -> (r: Result<(), String>)
        ensures
            r matches Err(m) ==> reports_database_failure(m),
    {
        let statement = delete_self_written_statement(id);
        self.run(&statement)
    }
}

} // verus!
