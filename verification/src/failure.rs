//! What the caller is told of a database call.
//!
//! A failure of the database is reported once, as the text that `rusqlite`
//! displays for it; there is no retry and no recovery. A statement that ran
//! is a success, whatever it changed.
use vstd::prelude::*;

verus! {

/// `message` is the text that `rusqlite` displays for the failure `e`.
pub open spec fn renders(e: rusqlite::Error, message: String) -> bool {
    vstd::string::to_string_from_display_ensures::<rusqlite::Error>(&e, message)
}

/// `message` is the text of some failure that `rusqlite` reported.
pub open spec fn reports_database_failure(message: String) -> bool {
    exists|e: rusqlite::Error| #[trigger] renders(e, message)
}

/// Turns the failure of a database call into its text and leaves a success
/// as it is.
pub fn describe_failure<T>(outcome: Result<T, rusqlite::Error>) -> (r: Result<T, String>)
    ensures
        outcome matches Ok(v) ==> r == Ok::<T, String>(v),
        outcome matches Err(e) ==> r matches Err(m) && renders(e, m),
        r matches Err(m) ==> reports_database_failure(m),
{
    match outcome {
        Ok(v) => Ok(v),
        Err(e) => {
            let m = e.to_string();
            Err(m)
        },
    }
}

/// What the caller of a save or a delete is told, given the database's
/// answer to the statement: success whatever number of rows the statement
/// changed, none included, so that a duplicate that was ignored or an id that
/// was not there cannot be told from a change; the text of the failure
/// otherwise.
pub fn acknowledge(outcome: Result<usize, rusqlite::Error>) -> (r: Result<(), String>)
    ensures
        outcome is Ok ==> r == Ok::<(), String>(()),
        outcome matches Err(e) ==> r matches Err(m) && renders(e, m),
        r matches Err(m) ==> reports_database_failure(m),
{
    match describe_failure(outcome) {
        Ok(_) => Ok(()),
        Err(m) => Err(m),
    }
}

} // verus!
