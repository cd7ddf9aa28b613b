//! The poller's per-cycle step.
//!
//! The poller queries the external source once per interval; the query
//! itself is outside work, so the step here takes its result. The step
//! formats the result and publishes it unconditionally — a failed query is
//! published like any other result, and stays visible until the next poll
//! overwrites it. Publishing never waits on readers.

use vstd::prelude::*;

use crate::cache::StatusCache;
use crate::status::PlaybackQueryResult;
use crate::status::format_status;
use crate::status::spec_status;

verus! {

/// One poll cycle after the query returned: format the result and publish
/// it, replacing whatever the cache held.
pub fn poll_step(cache: &mut StatusCache, result: PlaybackQueryResult)
    ensures
        final(cache)@ == spec_status(result),
{
    let status = format_status(&result);
    cache.publish(status);
}

} // verus!
