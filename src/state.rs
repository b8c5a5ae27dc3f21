//! The shared playback flag and the writes that keep it current.
//!
//! Every write to the flag is one of the signals below; a reader sees the
//! flag as the most recent signal left it. The optimistic write made when a
//! load starts and the writes driven by engine events are not ordered with
//! respect to each other: the flag is a best-effort status, and whichever
//! write lands last wins.
use vstd::prelude::*;

verus! {

/// An event that the playback engine emits.
#[derive(Clone, Copy, Debug, PartialEq, Eq, Structural)]
pub enum PlayerEvent {
    Started,
    Changed,
    Stopped,
}

/// A write to the playback flag: a load being started, the end-of-track
/// signal of a loaded track resolving, or an engine event.
#[derive(Clone, Copy, Debug, PartialEq, Eq, Structural)]
pub enum Signal {
    Load,
    EndOfTrack,
    Event(PlayerEvent),
}

/// The flag after one signal, given the flag before it.
pub open spec fn playing_after(before: bool, s: Signal) -> bool {
    match s {
        Signal::Load => true,
        Signal::EndOfTrack => false,
        Signal::Event(PlayerEvent::Started) => true,
        Signal::Event(PlayerEvent::Changed) => before,
        Signal::Event(PlayerEvent::Stopped) => false,
    }
}

/// The flag after a whole run of signals, applied in order.
pub open spec fn replay(start: bool, signals: Seq<Signal>) -> bool
    decreases signals.len(),
{
    if signals.len() == 0 {
        start
    } else {
        playing_after(replay(start, signals.drop_last()), signals.last())
    }
}

/// Whether a signal may set the flag: a load or a `Started` event.
pub open spec fn may_set(s: Signal) -> bool {
    s == Signal::Load || s == Signal::Event(PlayerEvent::Started)
}

/// Whether the engine is playing a track, as far as the last write knows.
pub struct PlayerState {
    is_playing: bool,
}

impl View for PlayerState {
    type V = bool;

    closed spec fn view(&self) -> bool {
        self.is_playing
    }
}

impl PlayerState {
    /// The state of a bridge that has not loaded anything yet.
    pub fn new() -> (r: PlayerState)
        ensures
            !r@,
    {
        PlayerState { is_playing: false }
    }

    /// Reads the flag.
    pub fn is_playing(&self) -> (r: bool)
        ensures
            r == self@,
    {
        self.is_playing
    }

    /// Applies one write to the flag.
    pub fn apply(&mut self, s: Signal)
        ensures
            final(self)@ == playing_after(old(self)@, s),
    {
        match s {
            Signal::Load => self.is_playing = true,
            Signal::EndOfTrack => self.is_playing = false,
            Signal::Event(ev) => self.on_event(ev),
        }
    }

    /// Reacts to an engine event: `Started` sets the flag, `Stopped` clears
    /// it, and `Changed` leaves it as it is.
    pub fn on_event(&mut self, ev: PlayerEvent)
        ensures
            final(self)@ == playing_after(old(self)@, Signal::Event(ev)),
    {
        match ev {
            PlayerEvent::Started => self.is_playing = true,
            PlayerEvent::Changed => {},
            PlayerEvent::Stopped => self.is_playing = false,
        }
    }

    /// The optimistic write made as a load starts, before the engine
    /// confirms anything.
    pub fn on_load(&mut self)
        ensures
            final(self)@,
    {
        self.is_playing = true;
    }

    /// The write made when a loaded track's end-of-track signal resolves.
    pub fn on_end_of_track(&mut self)
        ensures
            !final(self)@,
    {
        self.is_playing = false;
    }

    /// Applies a run of signals in order.
    pub fn apply_all(&mut self, signals: &Vec<Signal>)
        ensures
            final(self)@ == replay(old(self)@, signals@),
    {
        let mut i: usize = 0;
        while i < signals.len()
            invariant
                i <= signals@.len(),
                self@ == replay(old(self)@, signals@.take(i as int)),
            decreases signals@.len() - i,
        {
            let s = signals[i];
            proof {
                assert(signals@.take(i as int + 1).drop_last() == signals@.take(i as int));
            }
            self.apply(s);
            i = i + 1;
        }
        proof {
            assert(signals@.take(i as int) == signals@);
        }
    }
}

/// A run of signals that holds no write able to set the flag leaves a
/// clear flag clear.
pub proof fn lemma_no_setter_keeps_clear(start: bool, tail: Seq<Signal>)
    requires
        !start,
        forall|i: int| 0 <= i < tail.len() ==> !may_set(#[trigger] tail[i]),
    ensures
        !replay(start, tail),
    decreases tail.len(),
{
    if tail.len() > 0 {
        let front = tail.drop_last();
        assert forall|i: int| 0 <= i < front.len() implies !may_set(#[trigger] front[i]) by {
            assert(front[i] == tail[i]);
        }
        lemma_no_setter_keeps_clear(start, front);
        assert(!may_set(tail[tail.len() - 1]));
    }
}

/// Replaying a concatenation is replaying its second part from where the
/// first part left the flag.
pub proof fn lemma_replay_append(start: bool, a: Seq<Signal>, b: Seq<Signal>)
    ensures
        replay(start, a + b) == replay(replay(start, a), b),
    decreases b.len(),
{
    if b.len() == 0 {
        assert(a + b == a);
    } else {
        assert((a + b).drop_last() == a + b.drop_last());
        assert((a + b).last() == b.last());
        lemma_replay_append(start, a, b.drop_last());
    }
}

/// After a play, once the track's end-of-track signal has resolved and no
/// new play was issued (nor a `Started` event came), the flag reads false,
/// whatever happened between the load and the end of the track.
pub proof fn lemma_end_of_track_clears(
    start: bool,
    between: Seq<Signal>,
    after: Seq<Signal>,
)
    requires
        forall|i: int| 0 <= i < after.len() ==> !may_set(#[trigger] after[i]),
    ensures
        !replay(start, seq![Signal::Load] + between + seq![Signal::EndOfTrack] + after),
{
    let head = seq![Signal::Load] + between + seq![Signal::EndOfTrack];
    lemma_replay_append(start, head, after);
    assert(head.drop_last() == seq![Signal::Load] + between);
    assert(head.last() == Signal::EndOfTrack);
    lemma_no_setter_keeps_clear(replay(start, head), after);
}

/// Right after a load, before any other write lands, the flag reads true.
pub proof fn lemma_load_sets(start: bool)
    ensures
        replay(start, seq![Signal::Load]),
{
    assert(seq![Signal::Load].drop_last() =~= Seq::<Signal>::empty());
}

/// With nothing loaded, a stop event (or any run of stops and changes)
/// leaves a clear flag clear.
pub proof fn lemma_stop_when_idle(tail: Seq<Signal>)
    requires
        forall|i: int| 0 <= i < tail.len() ==> !may_set(#[trigger] tail[i]),
    ensures
        !replay(false, tail),
{
    lemma_no_setter_keeps_clear(false, tail);
}

} // verus!
