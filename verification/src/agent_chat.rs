//! Creator-only read projections of the browser chat with an agent.
use vstd::prelude::*;
use crate::error::AppError;

verus! {

/// Messages per history page.
pub const HISTORY_PAGE_SIZE: usize = 30;

/// Rows fetched per page: one more than a page, to learn whether more exist.
pub const HISTORY_FETCH_LIMIT: usize = 31;

/// The chat projections are for the humans who chat; an agent is forbidden.
pub fn require_human(actor_is_agent: bool) -> (r: Result<(), AppError>)
    ensures
        r is Ok <==> !actor_is_agent,
        r matches Err(e) ==> e == AppError::Forbidden,
{
    if actor_is_agent { Err(AppError::Forbidden) } else { Ok(()) }
}

/// Cuts the fetched rows (newest first, at most one more than a page) to a
/// page: at most `HISTORY_PAGE_SIZE` messages, and, when more rows exist, a
/// cursor naming the oldest message of the page.
pub fn history_page<T>(rows: Vec<T>, ids: &[u128]) -> (page: (Vec<T>, Option<u128>))
    requires
        rows@.len() == ids@.len(),
    ensures
        page.0@ == rows@.subrange(0, if rows@.len() > HISTORY_PAGE_SIZE { HISTORY_PAGE_SIZE as int } else { rows@.len() as int }),
        page.1 == if rows@.len() > HISTORY_PAGE_SIZE { Some(ids@[HISTORY_PAGE_SIZE - 1]) } else { None::<u128> },
{
    let has_more = rows.len() > HISTORY_PAGE_SIZE;
    let mut messages = rows;
    messages.truncate(HISTORY_PAGE_SIZE);
    let cursor = if has_more { Some(ids[HISTORY_PAGE_SIZE - 1]) } else { None };
    (messages, cursor)
}

} // verus!
