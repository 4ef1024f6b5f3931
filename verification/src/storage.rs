use vstd::prelude::*;
use crate::error::UserError;
use crate::text::str_to_lowercase;

verus! {

/// What a guarded insert of a user means. The store inserts the row only if
/// no row holds the e-mail address yet, in one step, and hands back the
/// identifier of the row it inserted: none means that the address was taken.
pub fn inserted_or_conflict(returned: Option<String>) -> (outcome: Result<String, UserError>)
    ensures
        match returned {
            Some(id) => outcome == Ok::<String, UserError>(id),
            None => outcome matches Err(e) && e is EmailAlreadyExists,
        },
{
    match returned {
        Some(id) => Ok(id),
        None => Err(UserError::EmailAlreadyExists),
    }
}

/// The form under which an e-mail address is looked up: in lowercase.
pub fn lookup_key(email: &str) -> (key: String)
    ensures
        key@ == str_to_lowercase(email@),
{
    email.to_lowercase()
}

/// The window of a listing that is asked of the store: at least one row,
/// from no earlier than the first.
pub fn page_window(limit: i32, offset: i64) -> (window: (i32, i64))
    ensures
        window.0 == if limit < 1 { 1 } else { limit },
        window.1 == if offset < 0 { 0 } else { offset },
{
    (if limit < 1 { 1 } else { limit }, if offset < 0 { 0 } else { offset })
}

} // verus!
