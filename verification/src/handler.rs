//! The query handler's read contract.
//!
//! A request reads the cache once and renders the value as a JSON string:
//! the current status, quoted. The read never waits for a value to appear
//! or change, and always succeeds once the cache exists — error statuses
//! render like any other status.

use vstd::prelude::*;
use vstd::string::StringExecFns;

use crate::cache::StatusCache;
use crate::status::PlaybackQueryResult;
use crate::status::spec_status;

verus! {

/// The status rendered as a JSON string body: the text in double quotes.
pub fn render_json_string(status: &String) -> (body: String)
    ensures
        body@ == "\""@ + status@ + "\""@,
{
    String::from_str("\"").concat(status.as_str()).concat("\"")
}

/// One request: a snapshot of the current status, as a JSON string body.
pub fn handle_query(cache: &StatusCache) -> (body: String)
    ensures
        body@ == "\""@ + cache@ + "\""@,
{
    let status = cache.current_value();
    render_json_string(&status)
}

/// End to end, short of the wire: once a poll has published the status for
/// `result`, a request that reads the cache returns exactly that status,
/// quoted — whatever the query returned, a failure included.
pub proof fn lemma_poll_then_query(
    cache: StatusCache,
    result: PlaybackQueryResult,
    body: Seq<char>,
)
    requires
        cache@ == spec_status(result),  // what `poll_step` ensures of the cache
        body == "\""@ + cache@ + "\""@,  // what `handle_query` ensures of the body
    ensures
        body == "\""@ + spec_status(result) + "\""@,
{
}

} // verus!
