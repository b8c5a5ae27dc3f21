//! The decisions the bridge makes on a caller's thread, apart from the
//! threads and the engine that carry them out.
use vstd::prelude::*;
use vstd::string::StringSliceAdditionalSpecFns;
use crate::state::{PlayerState, Signal, replay};
use crate::track::{ParseError, TrackId, parse_track_id, parse_track_spec};

verus! {

/// Starts a play request: parses the identifier and, when it names a track,
/// sets the flag optimistically before the load begins. A malformed
/// identifier is reported and touches nothing.
pub fn begin_play(state: &mut PlayerState, track_id: &str) -> (r: Result<TrackId, ParseError>)
    ensures
        r == parse_track_spec(track_id.spec_bytes()),
        r is Ok ==> final(state)@,
        r is Ok ==> final(state)@ == replay(old(state)@, seq![Signal::Load]),
        r is Err ==> final(state)@ == old(state)@,
{
    let parsed = parse_track_id(track_id);
    match parsed {
        Ok(t) => {
            state.apply(Signal::Load);
            proof {
                assert(seq![Signal::Load].drop_last() =~= Seq::<Signal>::empty());
            }
            Ok(t)
        },
        Err(e) => Err(e),
    }
}

} // verus!
