//! Every SQL statement the store issues, as data.
//!
//! A statement is a text with numbered placeholders and the values bound to
//! them, in order. The functions of this module build the statements from
//! plain values; nothing here touches a database.
use vstd::prelude::*;
use crate::record::{SelfWrittenStoryPayload, SelfWrittenStoryView, StoryPayload, StoryPayloadView};

verus! {

/// Creates the table of prompt-generated stories unless it exists.
pub const CREATE_STORIES: &'static str =
    "CREATE TABLE IF NOT EXISTS stories (\
        id INTEGER PRIMARY KEY AUTOINCREMENT, \
        story TEXT NOT NULL, \
        subject TEXT NOT NULL, \
        verb TEXT NOT NULL, \
        object TEXT NOT NULL, \
        setting TEXT NOT NULL, \
        consequences TEXT NOT NULL, \
        created_at TEXT NOT NULL)";

/// Of the prompt-generated stories that share a natural key, keeps the one
/// with the smallest rowid and removes the others.
pub const PURGE_STORIES: &'static str =
    "DELETE FROM stories WHERE rowid NOT IN (\
        SELECT MIN(rowid) FROM stories \
        GROUP BY story, subject, verb, object, setting, consequences)";

/// Makes the natural key of prompt-generated stories unique.
pub const INDEX_STORIES: &'static str =
    "CREATE UNIQUE INDEX IF NOT EXISTS idx_unique_prompt_story \
        ON stories (story, subject, verb, object, setting, consequences)";

/// Creates the table of self-written stories unless it exists.
pub const CREATE_SELF_WRITTEN: &'static str =
    "CREATE TABLE IF NOT EXISTS self_written_stories (\
        id INTEGER PRIMARY KEY AUTOINCREMENT, \
        story TEXT NOT NULL, \
        name TEXT NOT NULL, \
        created_at TEXT NOT NULL)";

/// Of the self-written stories that share a natural key, keeps the one with
/// the smallest rowid and removes the others.
pub const PURGE_SELF_WRITTEN: &'static str =
    "DELETE FROM self_written_stories WHERE rowid NOT IN (\
        SELECT MIN(rowid) FROM self_written_stories \
        GROUP BY story, name)";

/// Makes the natural key of self-written stories unique.
pub const INDEX_SELF_WRITTEN: &'static str =
    "CREATE UNIQUE INDEX IF NOT EXISTS idx_unique_self_written_story \
        ON self_written_stories (story, name)";

/// Inserts a prompt-generated story, stamped with the database's current
/// time, unless a row with the same natural key is already there.
pub const INSERT_STORY: &'static str =
    "INSERT OR IGNORE INTO stories \
        (story, subject, verb, object, setting, consequences, created_at) \
        VALUES (?1, ?2, ?3, ?4, ?5, ?6, datetime('now'))";

/// Reads all prompt-generated stories, newest first.
pub const SELECT_STORIES: &'static str =
    "SELECT id, story, subject, verb, object, setting, consequences, created_at \
        FROM stories ORDER BY created_at DESC";

/// Removes the prompt-generated story with the given id, if there is one.
pub const DELETE_STORY: &'static str = "DELETE FROM stories WHERE id = ?1";

/// Inserts a self-written story, stamped with the database's current time,
/// unless a row with the same natural key is already there.
pub const INSERT_SELF_WRITTEN: &'static str =
    "INSERT OR IGNORE INTO self_written_stories (story, name, created_at) \
        VALUES (?1, ?2, datetime('now'))";

/// Reads all self-written stories, newest first.
pub const SELECT_SELF_WRITTEN: &'static str =
    "SELECT id, story, name, created_at \
        FROM self_written_stories ORDER BY created_at DESC";

/// Removes the self-written story with the given id, if there is one.
pub const DELETE_SELF_WRITTEN: &'static str = "DELETE FROM self_written_stories WHERE id = ?1";

/// A value bound to a placeholder.
#[derive(Debug, Clone, PartialEq, Eq)]
pub enum SqlValue {
    Integer(i64),
    Text(String),
}

/// Mathematical view of a [`SqlValue`].
pub enum SqlValueView {
    Integer(int),
    Text(Seq<char>),
}

impl View for SqlValue {
    type V = SqlValueView;

    open spec fn view(&self) -> SqlValueView {
        match *self {
            SqlValue::Integer(i) => SqlValueView::Integer(i as int),
            SqlValue::Text(s) => SqlValueView::Text(s@),
        }
    }
}

/// A statement ready to be handed to the database: `params[i]` is bound to
/// the placeholder `?(i + 1)` of `sql`.
#[derive(Debug, Clone, PartialEq, Eq)]
pub struct SqlStatement {
    pub sql: &'static str,
    pub params: Vec<SqlValue>,
}

/// Mathematical view of a [`SqlStatement`].
pub struct SqlStatementView {
    pub sql: Seq<char>,
    pub params: Seq<SqlValueView>,
}

impl View for SqlStatement {
    type V = SqlStatementView;

    open spec fn view(&self) -> SqlStatementView {
        SqlStatementView { sql: self.sql@, params: self.params@.map_values(|p: SqlValue| p@) }
    }
}

/// The statements that bring a database to the current schema, in the order
/// in which they must run: for each table its creation, then the purge of
/// rows that share a natural key, then the unique index, which could not be
/// built while such rows were there.
pub open spec fn schema_texts() -> Seq<Seq<char>> {
    seq![
        CREATE_STORIES@,
        PURGE_STORIES@,
        INDEX_STORIES@,
        CREATE_SELF_WRITTEN@,
        PURGE_SELF_WRITTEN@,
        INDEX_SELF_WRITTEN@,
    ]
}

/// The insertion of the prompt-generated story `p`.
pub open spec fn insert_story(p: StoryPayloadView) -> SqlStatementView {
    SqlStatementView {
        sql: INSERT_STORY@,
        params: seq![
            SqlValueView::Text(p.story),
            SqlValueView::Text(p.subject),
            SqlValueView::Text(p.verb),
            SqlValueView::Text(p.object),
            SqlValueView::Text(p.setting),
            SqlValueView::Text(p.consequences),
        ],
    }
}

/// The insertion of the self-written story `p`.
pub open spec fn insert_self_written(p: SelfWrittenStoryView) -> SqlStatementView {
    SqlStatementView {
        sql: INSERT_SELF_WRITTEN@,
        params: seq![SqlValueView::Text(p.story), SqlValueView::Text(p.name)],
    }
}

/// The statement `sql` with `id` bound to its one placeholder.
pub open spec fn with_id(sql: Seq<char>, id: int) -> SqlStatementView {
    SqlStatementView { sql, params: seq![SqlValueView::Integer(id)] }
}

/// `sql` is one of the schema statements.
pub open spec fn is_schema_text(sql: Seq<char>) -> bool {
    schema_texts().contains(sql)
}

/// `sql` is one of the two statements that read a table.
pub open spec fn is_query_text(sql: Seq<char>) -> bool {
    sql == SELECT_STORIES@ || sql == SELECT_SELF_WRITTEN@
}

/// `s` is one of the statements that change rows: the insertion of some
/// story of either kind, or the removal of some id from either table.
pub open spec fn is_write(s: SqlStatementView) -> bool {
    ||| exists|p: StoryPayloadView| s == #[trigger] insert_story(p)
    ||| exists|p: SelfWrittenStoryView| s == #[trigger] insert_self_written(p)
    ||| exists|id: int| s == #[trigger] with_id(DELETE_STORY@, id)
    ||| exists|id: int| s == #[trigger] with_id(DELETE_SELF_WRITTEN@, id)
}

/// The schema statements, in the order in which they must run.
pub fn schema_steps() -> (steps: Vec<&'static str>)
    ensures
        steps@.len() == schema_texts().len(),
        forall|i: int| 0 <= i < steps@.len() ==> (#[trigger] steps@[i])@ == schema_texts()[i],
        forall|i: int| 0 <= i < steps@.len() ==> is_schema_text((#[trigger] steps@[i])@),
{
    let mut steps: Vec<&'static str> = Vec::new();
    steps.push(CREATE_STORIES);
    steps.push(PURGE_STORIES);
    steps.push(INDEX_STORIES);
    steps.push(CREATE_SELF_WRITTEN);
    steps.push(PURGE_SELF_WRITTEN);
    steps.push(INDEX_SELF_WRITTEN);
    steps
}

/// The statement that stores `payload`: its six texts are bound, in the
/// order of the natural key, to the placeholders of [`INSERT_STORY`].
pub fn save_story_statement(payload: StoryPayload) -> (s: SqlStatement)
    ensures
        s@ == insert_story(payload@),
        is_write(s@),
{
    let StoryPayload { story, subject, verb, object, setting, consequences } = payload;
    let mut params: Vec<SqlValue> = Vec::new();
    params.push(SqlValue::Text(story));
    params.push(SqlValue::Text(subject));
    params.push(SqlValue::Text(verb));
    params.push(SqlValue::Text(object));
    params.push(SqlValue::Text(setting));
    params.push(SqlValue::Text(consequences));
    let s = SqlStatement { sql: INSERT_STORY, params };
    assert(s@.params =~= insert_story(payload@).params);
    s
}

/// The statement that removes the prompt-generated story `id`.
pub fn delete_story_statement(id: i64) -> (s: SqlStatement)
    ensures
        s@ == with_id(DELETE_STORY@, id as int),
        is_write(s@),
{
    let mut params: Vec<SqlValue> = Vec::new();
    params.push(SqlValue::Integer(id));
    let s = SqlStatement { sql: DELETE_STORY, params };
    assert(s@.params =~= with_id(DELETE_STORY@, id as int).params);
    s
}

/// The statement that stores `payload`: its two texts are bound, in the
/// order of the natural key, to the placeholders of [`INSERT_SELF_WRITTEN`].
pub fn save_self_written_statement(payload: SelfWrittenStoryPayload) -> (s: SqlStatement)
    ensures
        s@ == insert_self_written(payload@),
        is_write(s@),
{
    let SelfWrittenStoryPayload { story, name } = payload;
    let mut params: Vec<SqlValue> = Vec::new();
    params.push(SqlValue::Text(story));
    params.push(SqlValue::Text(name));
    let s = SqlStatement { sql: INSERT_SELF_WRITTEN, params };
    assert(s@.params =~= insert_self_written(payload@).params);
    s
}

/// The statement that removes the self-written story `id`.
pub fn delete_self_written_statement(id: i64) -> (s: SqlStatement)
    ensures
        s@ == with_id(DELETE_SELF_WRITTEN@, id as int),
        is_write(s@),
{
    let mut params: Vec<SqlValue> = Vec::new();
    params.push(SqlValue::Integer(id));
    let s = SqlStatement { sql: DELETE_SELF_WRITTEN, params };
    assert(s@.params =~= with_id(DELETE_SELF_WRITTEN@, id as int).params);
    s
}

/// Two prompt-generated stories give the same insertion exactly when all
/// six texts of their natural key agree: the insertion carries the whole key,
/// each text in a place of its own.
pub proof fn insert_story_tells_stories_apart(p: StoryPayloadView, q: StoryPayloadView)
    ensures
        insert_story(p) == insert_story(q) <==> p == q,
{
}

/// Two self-written stories give the same insertion exactly when both texts
/// of their natural key agree.
pub proof fn insert_self_written_tells_stories_apart(
    p: SelfWrittenStoryView,
    q: SelfWrittenStoryView,
)
    ensures
        insert_self_written(p) == insert_self_written(q) <==> p == q,
{
}

/// Two removals from one table are the same statement exactly when they
/// name the same id.
pub proof fn with_id_tells_ids_apart(sql: Seq<char>, id: int, other: int)
    ensures
        with_id(sql, id) == with_id(sql, other) <==> id == other,
{
    if with_id(sql, id) == with_id(sql, other) {
        assert(with_id(sql, id).params[0] == with_id(sql, other).params[0]);
    }
}

} // verus!
