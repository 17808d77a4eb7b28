//! The records that callers hand in and get back.
//!
//! A payload carries the fields a caller supplies; a row carries, in
//! addition, the id and the creation time that the database assigned.
//! Every type has a view in which each text is the sequence of its
//! characters and the id is a mathematical integer; contracts speak of views.
use vstd::prelude::*;
use crate::sqlite::{integer_at, text_at, Cell};

verus! {

/// What a caller hands over to have a prompt-generated story stored.
///
/// The six texts together are the story's natural key: at most one stored
/// row carries a given combination of them. Any text may be empty.
#[derive(Debug, Clone, PartialEq, Eq)]
pub struct StoryPayload {
    pub story: String,
    pub subject: String,
    pub verb: String,
    pub object: String,
    pub setting: String,
    pub consequences: String,
}

/// Mathematical view of a [`StoryPayload`].
pub struct StoryPayloadView {
    pub story: Seq<char>,
    pub subject: Seq<char>,
    pub verb: Seq<char>,
    pub object: Seq<char>,
    pub setting: Seq<char>,
    pub consequences: Seq<char>,
}

impl View for StoryPayload {
    type V = StoryPayloadView;

    open spec fn view(&self) -> StoryPayloadView {
        StoryPayloadView {
            story: self.story@,
            subject: self.subject@,
            verb: self.verb@,
            object: self.object@,
            setting: self.setting@,
            consequences: self.consequences@,
        }
    }
}

/// What a caller hands over to have a self-written story stored.
///
/// The two texts together are the story's natural key. Either may be empty.
#[derive(Debug, Clone, PartialEq, Eq)]
pub struct SelfWrittenStoryPayload {
    pub story: String,
    pub name: String,
}

/// Mathematical view of a [`SelfWrittenStoryPayload`].
pub struct SelfWrittenStoryView {
    pub story: Seq<char>,
    pub name: Seq<char>,
}

impl View for SelfWrittenStoryPayload {
    type V = SelfWrittenStoryView;

    open spec fn view(&self) -> SelfWrittenStoryView {
        SelfWrittenStoryView { story: self.story@, name: self.name@ }
    }
}

/// A stored prompt-generated story.
///
/// `object_` holds the column `object`; `created_at` is the time of
/// insertion as the database wrote it, `YYYY-MM-DD HH:MM:SS` in UTC.
#[derive(Debug, Clone, PartialEq, Eq)]
pub struct StoryRow {
    pub id: i64,
    pub story: String,
    pub subject: String,
    pub verb: String,
    pub object_: String,
    pub setting: String,
    pub consequences: String,
    pub created_at: String,
}

/// Mathematical view of a [`StoryRow`].
pub struct StoryRowView {
    pub id: int,
    pub story: Seq<char>,
    pub subject: Seq<char>,
    pub verb: Seq<char>,
    pub object: Seq<char>,
    pub setting: Seq<char>,
    pub consequences: Seq<char>,
    pub created_at: Seq<char>,
}

impl View for StoryRow {
    type V = StoryRowView;

    open spec fn view(&self) -> StoryRowView {
        StoryRowView {
            id: self.id as int,
            story: self.story@,
            subject: self.subject@,
            verb: self.verb@,
            object: self.object_@,
            setting: self.setting@,
            consequences: self.consequences@,
            created_at: self.created_at@,
        }
    }
}

/// `cells` can be read as a prompt-generated story: an integer, then seven
/// texts. Cells behind the eighth are not looked at.
pub open spec fn is_story_row(cells: Seq<Cell>) -> bool {
    &&& integer_at(cells, 0) is Some
    &&& text_at(cells, 1) is Some
    &&& text_at(cells, 2) is Some
    &&& text_at(cells, 3) is Some
    &&& text_at(cells, 4) is Some
    &&& text_at(cells, 5) is Some
    &&& text_at(cells, 6) is Some
    &&& text_at(cells, 7) is Some
}

/// The prompt-generated story that `cells` reads as: each column in the
/// field of its name, the column `object` in `object_`.
pub open spec fn story_row_of(cells: Seq<Cell>) -> StoryRowView {
    StoryRowView {
        id: integer_at(cells, 0).unwrap() as int,
        story: text_at(cells, 1).unwrap(),
        subject: text_at(cells, 2).unwrap(),
        verb: text_at(cells, 3).unwrap(),
        object: text_at(cells, 4).unwrap(),
        setting: text_at(cells, 5).unwrap(),
        consequences: text_at(cells, 6).unwrap(),
        created_at: text_at(cells, 7).unwrap(),
    }
}

impl StoryRow {
    /// The row made of the eight columns of the table of prompt-generated
    /// stories, taken in the order in which the table declares them.
    pub fn from_columns(
        id: i64,
        story: String,
        subject: String,
        verb: String,
        object: String,
        setting: String,
        consequences: String,
        created_at: String,
    ) -> (row: StoryRow)
        ensures
            row@ == (StoryRowView {
                id: id as int,
                story: story@,
                subject: subject@,
                verb: verb@,
                object: object@,
                setting: setting@,
                consequences: consequences@,
                created_at: created_at@,
            }),
    {
        StoryRow { id, story, subject, verb, object_: object, setting, consequences, created_at }
    }
}

/// A stored self-written story.
#[derive(Debug, Clone, PartialEq, Eq)]
pub struct SelfWrittenStoryRow {
    pub id: i64,
    pub story: String,
    pub name: String,
    pub created_at: String,
}

/// Mathematical view of a [`SelfWrittenStoryRow`].
pub struct SelfWrittenStoryRowView {
    pub id: int,
    pub story: Seq<char>,
    pub name: Seq<char>,
    pub created_at: Seq<char>,
}

impl View for SelfWrittenStoryRow {
    type V = SelfWrittenStoryRowView;

    open spec fn view(&self) -> SelfWrittenStoryRowView {
        SelfWrittenStoryRowView {
            id: self.id as int,
            story: self.story@,
            name: self.name@,
            created_at: self.created_at@,
        }
    }
}

/// `cells` can be read as a self-written story: an integer, then three
/// texts. Cells behind the fourth are not looked at.
pub open spec fn is_self_written_row(cells: Seq<Cell>) -> bool {
    &&& integer_at(cells, 0) is Some
    &&& text_at(cells, 1) is Some
    &&& text_at(cells, 2) is Some
    &&& text_at(cells, 3) is Some
}

/// The self-written story that `cells` reads as.
pub open spec fn self_written_row_of(cells: Seq<Cell>) -> SelfWrittenStoryRowView {
    SelfWrittenStoryRowView {
        id: integer_at(cells, 0).unwrap() as int,
        story: text_at(cells, 1).unwrap(),
        name: text_at(cells, 2).unwrap(),
        created_at: text_at(cells, 3).unwrap(),
    }
}

impl SelfWrittenStoryRow {
    /// The row made of the four columns of the table of self-written
    /// stories, taken in the order in which the table declares them.
    pub fn from_columns(id: i64, story: String, name: String, created_at: String) -> (row:
        SelfWrittenStoryRow)
        ensures
            row@ == (SelfWrittenStoryRowView {
                id: id as int,
                story: story@,
                name: name@,
                created_at: created_at@,
            }),
    {
        SelfWrittenStoryRow { id, story, name, created_at }
    }
}

} // verus!
