//! Reading a page's hit count out of the database reply.
use vstd::prelude::*;

verus! {

/// The query that reads the count of one page; its one parameter is the
/// page's id.
pub const SELECT_COUNT_QUERY: &'static str = "SELECT count from hit_counter where webpage_id = $1";

/// The count that a reply to `SELECT_COUNT_QUERY` stands for, given the
/// `count` column of its first row, if it has a row: a page that has no row
/// yet has 0 hits.
pub open spec fn count_of_reply(first_row_count: Option<i32>) -> i32 {
    match first_row_count {
        Some(count) => count,
        None => 0,
    }
}

/// The hit count of a page, from the `count` column of the first row that the
/// database returned for it (`None` when it returned no row).
pub fn hit_count_from_reply(first_row_count: Option<i32>) -> (count: i32)
    ensures
        count == count_of_reply(first_row_count),
        first_row_count is None ==> count == 0,
        first_row_count matches Some(stored) ==> count == stored,
{
    match first_row_count {
        Some(count) => count,
        None => 0,
    }
}

/// The count read from a reply is exactly the count stored in its first row,
/// for every `i32`, and 0 for a reply without rows.
pub proof fn reply_count_is_stored_count(stored: i32)
    ensures
        count_of_reply(Some(stored)) == stored,
        count_of_reply(None) == 0,
{
}

} // verus!
