//! The number of sessions that hold the engine's process-wide state.
//!
//! Global teardown may run only when the last session lets go. The owner of
//! the counter keeps it behind one lock, so that no two sessions race on it.
use vstd::prelude::*;

verus! {

pub struct UsageCounter {
    sessions: u64,
}

impl UsageCounter {
    pub closed spec fn sessions(&self) -> nat {
        self.sessions as nat
    }

    pub fn new() -> (r: UsageCounter)
        ensures
            r.sessions() == 0,
    {
        UsageCounter { sessions: 0 }
    }

    pub fn count(&self) -> (r: u64)
        ensures
            r == self.sessions(),
    {
        self.sessions
    }

    /// Takes the return code of a global initialisation: a session holds the
    /// engine from then on where the code is zero. True where it was counted;
    /// a count that is already at its largest stays there.
    pub fn on_init(&mut self, code: i32) -> (counted: bool)
        ensures
            counted == (code == 0 && old(self).sessions() < u64::MAX),
            final(self).sessions() == if counted {
                old(self).sessions() + 1nat
            } else {
                old(self).sessions()
            },
    {
        if code == 0 && self.sessions < u64::MAX {
            self.sessions = self.sessions + 1;
            true
        } else {
            false
        }
    }

    /// Takes a session's global cleanup: true where it was the last session,
    /// so that global teardown is due. With no session counted nothing is
    /// released and no teardown is due.
    pub fn on_cleanup(&mut self) -> (teardown: bool)
        ensures
            teardown == (old(self).sessions() == 1),
            final(self).sessions() == if old(self).sessions() > 0 {
                (old(self).sessions() - 1) as nat
            } else {
                0nat
            },
    {
        if self.sessions > 0 {
            self.sessions = self.sessions - 1;
            self.sessions == 0
        } else {
            false
        }
    }
}

} // verus!
