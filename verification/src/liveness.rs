//! Heartbeat-based liveness detection.
//!
//! The monitor counts pings that have not been answered yet. On each
//! heartbeat tick, a session whose counter has reached the threshold is
//! declared stale and must be reconnected without sending another ping;
//! otherwise a ping is sent and the counter is raised speculatively.
//! Every pong resets the counter. The monitor owns no socket state: it
//! is pure policy on top of the transport.

use vstd::prelude::*;

use crate::MAX_MISSED_PONGS;

verus! {

/// Tracks consecutive unanswered pings for one live session.
pub struct LivenessMonitor {
    missed_pongs: u8,
}

impl View for LivenessMonitor {
    type V = u8;

    closed spec fn view(&self) -> u8 {
        self.missed_pongs
    }
}

impl LivenessMonitor {
    /// A fresh monitor with no missed pongs.
    pub fn new() -> (m: LivenessMonitor)
        ensures
            m@ == 0,
    {
        LivenessMonitor { missed_pongs: 0 }
    }

    /// One heartbeat tick. Returns true — the session is stale and must
    /// be reconnected — exactly when the counter had already reached the
    /// threshold; otherwise the caller owes the server a ping and the
    /// counter is raised by one.
    pub fn on_tick(&mut self) -> (stale: bool)
        requires
            old(self)@ <= MAX_MISSED_PONGS,
        ensures
            stale == (old(self)@ >= MAX_MISSED_PONGS),
            stale ==> final(self)@ == old(self)@,
            !stale ==> final(self)@ == old(self)@ + 1,
    {
        if self.missed_pongs >= MAX_MISSED_PONGS {
            true
        } else {
            self.missed_pongs = self.missed_pongs + 1;
            false
        }
    }

    /// The server answered: the session is alive again.
    pub fn on_pong(&mut self)
        ensures
            final(self)@ == 0,
    {
        self.missed_pongs = 0;
    }

    /// Starts a fresh session: no ping is outstanding.
    pub fn reset(&mut self)
        ensures
            final(self)@ == 0,
    {
        self.missed_pongs = 0;
    }
}

} // verus!
