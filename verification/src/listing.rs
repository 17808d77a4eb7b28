//! How a list is gathered from the answers of a cursor.
//!
//! A cursor answers each step with a row, with the end of the rows, or with
//! a failure. The list is built from these answers one at a time, and two
//! rules hold of it, whatever the answers are: the rows come out in the
//! order in which the cursor yielded them, and a failure leaves no list at
//! all, however many rows came before it.
use vstd::prelude::*;
use crate::failure::renders;

verus! {

/// What a list answers when the database yields more rows than a vector
/// can index.
pub const TOO_MANY_ROWS: &'static str = "the table holds more rows than can be listed";

/// One answer of a cursor: a row, the end of the rows, or a failure.
pub type Answer<T> = Result<Option<T>, rusqlite::Error>;

/// Where a listing stands after an answer of the cursor.
#[derive(Debug, PartialEq, Eq)]
pub enum Listing<T> {
    /// The rows gathered so far; more may follow.
    Open(Vec<T>),
    /// The listing is over, and this is what the caller is told.
    Closed(Result<Vec<T>, String>),
}

/// Where a listing stands, before a failure is put into words.
pub enum Progress<T> {
    /// The rows gathered so far, in the order in which they came.
    Open(Seq<T>),
    /// The rows ended; these are all of them.
    Listed(Seq<T>),
    /// A row came when the list could take no more.
    Overfull,
    /// The cursor failed.
    Failed(rusqlite::Error),
}

/// The listing after one more answer, `gathered` being the rows before it.
pub open spec fn step<T>(gathered: Seq<T>, answer: Answer<T>) -> Progress<T> {
    match answer {
        Ok(Some(row)) => if gathered.len() < usize::MAX {
            Progress::Open(gathered.push(row))
        } else {
            Progress::Overfull
        },
        Ok(None) => Progress::Listed(gathered),
        Err(e) => Progress::Failed(e),
    }
}

/// The listing after `answers`, taken in turn for as long as it is open.
pub open spec fn gather<T>(gathered: Seq<T>, answers: Seq<Answer<T>>) -> Progress<T>
    decreases answers.len(),
{
    if answers.len() == 0 {
        Progress::Open(gathered)
    } else {
        match step(gathered, answers[0]) {
            Progress::Open(more) => gather(more, answers.skip(1)),
            closed => closed,
        }
    }
}

/// `listing` is `progress` as the caller sees it: the same rows, and a
/// failure as its text.
pub open spec fn tells<T>(listing: Listing<T>, progress: Progress<T>) -> bool {
    match progress {
        Progress::Open(rows) => listing matches Listing::Open(v) && v@ == rows,
        Progress::Listed(rows) => listing matches Listing::Closed(Ok(v)) && v@ == rows,
        Progress::Overfull => listing matches Listing::Closed(Err(m)) && m@ == TOO_MANY_ROWS@,
        Progress::Failed(e) => listing matches Listing::Closed(Err(m)) && renders(e, m),
    }
}

/// The listing after one more answer of the cursor:
///
/// * on a row, the row is added behind the others, unless the vector is
///   full, in which case the listing fails with [`TOO_MANY_ROWS`];
/// * past the last row, the listing succeeds with the rows gathered;
/// * on a failure, the listing fails with the text of the failure, and the
///   rows gathered are dropped.
pub fn advance<T>(gathered: Vec<T>, answer: Answer<T>) -> (next: Listing<T>)
    ensures
        tells(next, step(gathered@, answer)),
{
    match answer {
        Ok(Some(row)) => {
            if gathered.len() < usize::MAX {
                let mut rows = gathered;
                rows.push(row);
                Listing::Open(rows)
            } else {
                Listing::Closed(Err(TOO_MANY_ROWS.to_owned()))
            }
        },
        Ok(None) => Listing::Closed(Ok(gathered)),
        Err(e) => Listing::Closed(Err(e.to_string())),
    }
}

/// The answers of a cursor that yields `rows` and then ends.
pub open spec fn yielding<T>(rows: Seq<T>) -> Seq<Answer<T>> {
    rows.map_values(|row: T| Ok::<Option<T>, rusqlite::Error>(Some(row))).push(Ok(None))
}

/// The answers of a cursor that yields `rows` and then fails with `e`.
pub open spec fn failing_after<T>(rows: Seq<T>, e: rusqlite::Error) -> Seq<Answer<T>> {
    rows.map_values(|row: T| Ok::<Option<T>, rusqlite::Error>(Some(row))).push(Err(e))
}

/// While rows come, they are added behind those gathered before.
proof fn lemma_gather_rows<T>(gathered: Seq<T>, rows: Seq<T>, rest: Seq<Answer<T>>)
    requires
        gathered.len() + rows.len() <= usize::MAX,
    ensures
        gather(
            gathered,
            rows.map_values(|row: T| Ok::<Option<T>, rusqlite::Error>(Some(row))) + rest,
        ) == gather(gathered + rows, rest),
    decreases rows.len(),
{
    if rows.len() > 0 {
        let lift = |row: T| Ok::<Option<T>, rusqlite::Error>(Some(row));
        let answers = rows.map_values(lift) + rest;
        let first = rows[0];
        let later = rows.skip(1);
        assert(answers.skip(1) =~= later.map_values(lift) + rest);
        lemma_gather_rows(gathered.push(first), later, rest);
        assert(gathered.push(first) + later =~= gathered + rows);
    }
}

/// A list holds the rows that the cursor yielded, all of them, in the order
/// in which it yielded them.
pub proof fn rows_come_out_in_order<T>(rows: Seq<T>)
    requires
        rows.len() <= usize::MAX,
    ensures
        gather(Seq::empty(), yielding(rows)) == Progress::Listed(rows),
{
    let end: Seq<Answer<T>> = seq![Ok(None)];
    lemma_gather_rows(Seq::empty(), rows, end);
    assert(yielding(rows) =~= rows.map_values(
        |row: T| Ok::<Option<T>, rusqlite::Error>(Some(row)),
    ) + end);
    assert(Seq::<T>::empty() + rows =~= rows);
}

/// A failure of the cursor leaves no list: the listing fails with that
/// failure, however many rows came before it and whatever would have come
/// after it.
pub proof fn failure_leaves_no_list<T>(
    rows: Seq<T>,
    e: rusqlite::Error,
    later: Seq<Answer<T>>,
)
    requires
        rows.len() <= usize::MAX,
    ensures
        gather(Seq::empty(), failing_after(rows, e) + later) == Progress::<T>::Failed(e),
{
    let failure: Seq<Answer<T>> = seq![Err(e)];
    lemma_gather_rows(Seq::empty(), rows, failure + later);
    assert(failing_after(rows, e) + later =~= rows.map_values(
        |row: T| Ok::<Option<T>, rusqlite::Error>(Some(row)),
    ) + (failure + later));
    assert(Seq::<T>::empty() + rows =~= rows);
}

} // verus!
