//! The status cache: a single-slot, last-write-wins holder of the most
//! recent display string.
//!
//! The cache owns exactly one value. It starts as the sentinel `"init"`,
//! before any poll has completed; each publish fully replaces the value;
//! a read returns a snapshot of the latest published value. There is no
//! queue and no history: readers may see the same value repeatedly, and
//! may miss values, but never see an older value after a newer one.

use vstd::prelude::*;
use vstd::string::StringExecFns;

verus! {

/// The sentinel held before the first publish.
pub open spec fn spec_sentinel() -> Seq<char> {
    "init"@
}

/// The value a cache holds after a sequence of publishes, oldest first,
/// starting from `init`.
pub open spec fn value_after(init: Seq<char>, publishes: Seq<Seq<char>>) -> Seq<char>
    decreases publishes.len(),
{
    if publishes.len() == 0 {
        init
    } else {
        value_after(publishes[0], publishes.skip(1))
    }
}

/// Last write wins: after at least one publish the cache holds exactly the
/// most recent value, whatever stood there before. In particular, once a
/// newer value is published, no read returns an older one again: publishes
/// are never reordered.
pub proof fn lemma_last_write_wins(init: Seq<char>, publishes: Seq<Seq<char>>)
    requires
        publishes.len() > 0,
    ensures
        value_after(init, publishes) == publishes.last(),
    decreases publishes.len(),
{
    if publishes.len() == 1 {
        assert(publishes.skip(1).len() == 0);
        assert(value_after(publishes[0], publishes.skip(1)) == publishes[0]);
    } else {
        lemma_last_write_wins(publishes[0], publishes.skip(1));
        assert(publishes.skip(1).last() == publishes.last());
    }
}

/// The single-slot cache.
///
/// The view of a cache is the display string it currently holds.
pub struct StatusCache {
    current: String,
}

impl View for StatusCache {
    type V = Seq<char>;

    closed spec fn view(&self) -> Seq<char> {
        self.current@
    }
}

impl StatusCache {
    /// A fresh cache, holding the sentinel until the first publish.
    pub fn new() -> (cache: StatusCache)
        ensures
            cache@ == spec_sentinel(),
    {
        StatusCache { current: String::from_str("init") }
    }

    /// Replaces the held value with `value`. Always succeeds; the old
    /// value is gone, and every later read returns the new one until the
    /// next publish.
    pub fn publish(&mut self, value: String)
        ensures
            final(self)@ == value@,
            final(self)@ == value_after(old(self)@, seq![value@]),
    {
        proof {
            let pubs = seq![value@];
            assert(pubs.skip(1).len() == 0);
            assert(value_after(pubs[0], pubs.skip(1)) == pubs[0]);
        }
        self.current = value;
    }

    /// A point-in-time snapshot of the latest published value (the
    /// sentinel, before any publish). Does not change the cache.
    pub fn current_value(&self) -> (value: String)
        ensures
            value@ == self@,
    {
        self.current.clone()
    }
}

/// After `publish(v)`, a read that follows with no publish in between
/// returns exactly `v`: reading does not consume or change the value, so
/// this holds for every such read, however many readers there are.
pub proof fn lemma_publish_then_read(cache: StatusCache, v: Seq<char>, read: Seq<char>)
    requires
        cache@ == v,  // what `publish` ensures of the cache
        read == cache@,  // what `current_value` ensures of the read
    ensures
        read == v,
{
}

} // verus!
