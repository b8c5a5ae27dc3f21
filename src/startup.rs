//! The construction protocol: the caller blocks on two one-shot handoffs in
//! turn, first for the event loop's spawn handle, then for the session.
//!
//! Each handoff is received at most once (a second receive is ruled out by
//! the methods' preconditions). Whether the handoffs are ever fulfilled is a
//! matter of liveness that these states cannot express: a caller that
//! waits without a deadline may wait forever.
use vstd::prelude::*;

verus! {

/// Why a bridge could not be constructed.
#[derive(Clone, Copy, Debug, PartialEq, Eq, Structural)]
pub enum InitError {
    /// The session could not be established.
    ConnectFailed,
    /// A handoff's sender was dropped without sending.
    ChannelBroken,
}

/// What one blocking receive on a handoff gave.
#[derive(Clone, Copy, Debug, PartialEq, Eq, Structural)]
pub enum Receipt {
    /// The value arrived.
    Delivered,
    /// The sender reported that the session could not be established.
    ConnectFailed,
    /// The sender was dropped without sending.
    Broken,
}

/// Where construction stands.
#[derive(Clone, Copy, Debug, PartialEq, Eq, Structural)]
pub enum Stage {
    AwaitingHandle,
    AwaitingSession,
    Ready,
    Failed(InitError),
}

/// The caller's side of the construction protocol.
pub struct Startup {
    stage: Stage,
    handles_received: u8,
    sessions_received: u8,
}

/// The error a failed receipt stands for.
pub open spec fn receipt_error(r: Receipt) -> InitError {
    match r {
        Receipt::ConnectFailed => InitError::ConnectFailed,
        _ => InitError::ChannelBroken,
    }
}

impl Startup {
    /// The stage reached so far.
    pub closed spec fn stage_spec(&self) -> Stage {
        self.stage
    }

    /// How many values the spawn-handle handoff has delivered.
    pub closed spec fn handles_spec(&self) -> int {
        self.handles_received as int
    }

    /// How many values the session handoff has delivered.
    pub closed spec fn sessions_spec(&self) -> int {
        self.sessions_received as int
    }

    /// The counts agree with the stage: each handoff delivers at most once,
    /// and the session only after the handle.
    pub closed spec fn wf(&self) -> bool {
        &&& self.handles_received <= 1
        &&& self.sessions_received <= self.handles_received
        &&& match self.stage {
            Stage::AwaitingHandle => self.handles_received == 0,
            Stage::AwaitingSession => self.handles_received == 1 && self.sessions_received == 0,
            Stage::Ready => self.handles_received == 1 && self.sessions_received == 1,
            Stage::Failed(_) => self.sessions_received == 0,
        }
    }

    /// Nothing received yet.
    pub fn new() -> (r: Startup)
        ensures
            r.wf(),
            r.stage_spec() == Stage::AwaitingHandle,
            r.handles_spec() == 0,
            r.sessions_spec() == 0,
    {
        Startup { stage: Stage::AwaitingHandle, handles_received: 0, sessions_received: 0 }
    }

    /// The stage reached so far.
    pub fn stage(&self) -> (r: Stage)
        ensures
            r == self.stage_spec(),
    {
        self.stage
    }

    /// Records the one receive on the spawn-handle handoff.
    pub fn on_handle(&mut self, r: Receipt)
        requires
            old(self).wf(),
            old(self).stage_spec() == Stage::AwaitingHandle,
        ensures
            final(self).wf(),
            final(self).stage_spec() == (if r == Receipt::Delivered {
                Stage::AwaitingSession
            } else {
                Stage::Failed(receipt_error(r))
            }),
            final(self).handles_spec() == (if r == Receipt::Delivered { 1int } else { 0 }),
            final(self).sessions_spec() == 0,
    {
        match r {
            Receipt::Delivered => {
                self.handles_received = 1;
                self.stage = Stage::AwaitingSession;
            },
            Receipt::ConnectFailed => {
                self.stage = Stage::Failed(InitError::ConnectFailed);
            },
            Receipt::Broken => {
                self.stage = Stage::Failed(InitError::ChannelBroken);
            },
        }
    }

    /// Records the one receive on the session handoff.
    pub fn on_session(&mut self, r: Receipt)
        requires
            old(self).wf(),
            old(self).stage_spec() == Stage::AwaitingSession,
        ensures
            final(self).wf(),
            final(self).stage_spec() == (if r == Receipt::Delivered {
                Stage::Ready
            } else {
                Stage::Failed(receipt_error(r))
            }),
            final(self).handles_spec() == 1,
            final(self).sessions_spec() == (if r == Receipt::Delivered { 1int } else { 0 }),
    {
        match r {
            Receipt::Delivered => {
                self.sessions_received = 1;
                self.stage = Stage::Ready;
            },
            Receipt::ConnectFailed => {
                self.stage = Stage::Failed(InitError::ConnectFailed);
            },
            Receipt::Broken => {
                self.stage = Stage::Failed(InitError::ChannelBroken);
            },
        }
    }

    /// The outcome of construction once it has settled: `Ok` when both
    /// values arrived, the error otherwise, `None` while still waiting.
    pub fn outcome(&self) -> (r: Option<Result<(), InitError>>)
        ensures
            r == (match self.stage_spec() {
                Stage::Ready => Some(Ok(())),
                Stage::Failed(e) => Some(Err(e)),
                _ => None::<Result<(), InitError>>,
            }),
    {
        match self.stage {
            Stage::Ready => Some(Ok(())),
            Stage::Failed(e) => Some(Err(e)),
            _ => None,
        }
    }
}

/// The whole protocol on two receipts: construction succeeds exactly when
/// the handle and then the session are delivered; a failed handle receipt
/// ends it before the session handoff is read.
pub fn run_startup(handle: Receipt, session: Receipt) -> (r: Result<(), InitError>)
    ensures
        r == (if handle != Receipt::Delivered {
            Err(receipt_error(handle))
        } else if session != Receipt::Delivered {
            Err(receipt_error(session))
        } else {
            Ok(())
        }),
{
    let mut s = Startup::new();
    s.on_handle(handle);
    if s.stage() == Stage::AwaitingSession {
        s.on_session(session);
    }
    match s.outcome() {
        Some(res) => res,
        None => Err(InitError::ChannelBroken),
    }
}

/// A constructed bridge has received exactly one value through each
/// handoff.
pub proof fn lemma_ready_received_one_each(s: Startup)
    requires
        s.wf(),
        s.stage_spec() == Stage::Ready,
    ensures
        s.handles_spec() == 1,
        s.sessions_spec() == 1,
{
}

} // verus!
