//! The playback query result and the status formatter.
//!
//! The formatter is a pure, total function from a playback query result to
//! the display string that the service publishes. A track renders as the
//! artist names joined with `", "`, then `" - "`, then the title; an empty
//! artist list renders with the empty join, that is as `" - <title>"`.

use vstd::prelude::*;
use vstd::string::StringExecFns;

verus! {

/// What one playback query against the external source produced.
pub enum PlaybackQueryResult {
    /// A track is playing, by these artists (in order), with this title.
    Track { artist_names: Vec<String>, title: String },
    /// Nothing is playing on the tracked account.
    NothingPlaying,
    /// Something other than a track is playing (an episode, an ad, ...).
    OtherPlayable,
    /// The query itself failed; the message describes how.
    QueryFailed { message: String },
}

/// The parts joined with the separator between each adjacent pair.
pub open spec fn join_with(parts: Seq<Seq<char>>, sep: Seq<char>) -> Seq<char>
    decreases parts.len(),
{
    if parts.len() == 0 {
        Seq::empty()
    } else if parts.len() == 1 {
        parts[0]
    } else {
        parts[0] + sep + join_with(parts.skip(1), sep)
    }
}

/// The display string for a playback query result.
pub open spec fn spec_status(r: PlaybackQueryResult) -> Seq<char> {
    match r {
        PlaybackQueryResult::Track { artist_names, title } =>
            join_with(artist_names.deep_view(), ", "@) + " - "@ + title@,
        PlaybackQueryResult::NothingPlaying => "No song playing"@,
        PlaybackQueryResult::OtherPlayable => "Unknown"@,
        PlaybackQueryResult::QueryFailed { message } => "Error! "@ + message@,
    }
}

/// Appending one part extends the join by the separator and that part
/// (or is just that part, when there was nothing yet).
proof fn lemma_join_push(parts: Seq<Seq<char>>, sep: Seq<char>, part: Seq<char>)
    ensures
        join_with(parts.push(part), sep) == if parts.len() == 0 {
            part
        } else {
            join_with(parts, sep) + sep + part
        },
    decreases parts.len(),
{
    let pushed = parts.push(part);
    if parts.len() == 0 {
        assert(pushed.len() == 1);
        assert(pushed[0] == part);
    } else if parts.len() == 1 {
        assert(pushed.len() == 2);
        assert(pushed[0] == parts[0]);
        assert(pushed.skip(1) =~= seq![part]);
        assert(join_with(pushed.skip(1), sep) == part);
    } else {
        assert(pushed.skip(1) =~= parts.skip(1).push(part));
        lemma_join_push(parts.skip(1), sep, part);
        assert(join_with(pushed, sep) == parts[0] + sep + (join_with(parts.skip(1), sep) + sep
            + part));
        assert(parts[0] + sep + (join_with(parts.skip(1), sep) + sep + part) =~= (parts[0] + sep
            + join_with(parts.skip(1), sep)) + sep + part);
    }
}

/// Joins the strings with the separator between each adjacent pair.
fn join_strings(parts: &Vec<String>, sep: &str) -> (joined: String)
    ensures
        joined@ == join_with(parts.deep_view(), sep@),
{
    let mut joined = String::new();
    let mut i: usize = 0;
    while i < parts.len()
        invariant
            i <= parts.len(),
            joined@ == join_with(parts.deep_view().take(i as int), sep@),
        decreases parts.len() - i,
    {
        if i > 0 {
            joined.append(sep);
        }
        joined.append(parts[i].as_str());
        proof {
            let dv = parts.deep_view();
            assert(dv.take(i + 1) =~= dv.take(i as int).push(dv[i as int]));
            lemma_join_push(dv.take(i as int), sep@, dv[i as int]);
            assert(dv[i as int] == parts@[i as int]@);
        }
        i = i + 1;
    }
    proof {
        assert(parts.deep_view().take(parts.len() as int) =~= parts.deep_view());
    }
    joined
}

/// Formats a playback query result as its display string.
///
/// Total over every variant: a failed query formats like any other result,
/// so a transient error is published and shown until the next poll
/// overwrites it.
pub fn format_status(r: &PlaybackQueryResult) -> (s: String)
    ensures
        s@ == spec_status(*r),
{
    match r {
        PlaybackQueryResult::Track { artist_names, title } => {
            let mut s = join_strings(artist_names, ", ");
            s.append(" - ");
            s.append(title.as_str());
            s
        },
        PlaybackQueryResult::NothingPlaying => String::from_str("No song playing"),
        PlaybackQueryResult::OtherPlayable => String::from_str("Unknown"),
        PlaybackQueryResult::QueryFailed { message } => String::from_str("Error! ").concat(
            message.as_str(),
        ),
    }
}

} // verus!
