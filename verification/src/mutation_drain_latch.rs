//! Counts the commands that change something, so that an update can wait until
//! they are done.

use vstd::prelude::*;

verus! {

/// How many commands are under way, and who waits for them.
pub struct MutationDrainLatch {
    pub active: usize,
    pub waiters: Vec<u64>,
}

/// What one who waits for the commands does next.
#[derive(Debug, PartialEq)]
pub enum DrainStep {
    /// Few enough are under way.
    Done,
    /// The wait was called off.
    Aborted(String),
    /// Wait until a command is done.
    Wait,
}

impl MutationDrainLatch {
    pub fn new() -> (r: Self)
        ensures
            r.active == 0,
            r.waiters@.len() == 0,
    {
        MutationDrainLatch { active: 0, waiters: Vec::new() }
    }

    /// A command begins.
    pub fn begin(&mut self)
        ensures
            final(self).active == if old(self).active == usize::MAX {
                0
            } else {
                old(self).active + 1
            },
            final(self).waiters == old(self).waiters,
    {
        self.active = self.active.wrapping_add(1);
    }

    /// A command is done. Everyone who waits is told and asks again.
    pub fn end(&mut self) -> (r: Vec<u64>)
        ensures
            final(self).active == if old(self).active == 0 {
                usize::MAX as int
            } else {
                old(self).active - 1
            },
            r == old(self).waiters,
            final(self).waiters@.len() == 0,
    {
        self.active = self.active.wrapping_sub(1);
        let mut told: Vec<u64> = Vec::new();
        std::mem::swap(&mut told, &mut self.waiters);
        told
    }

    pub fn active(&self) -> (r: usize)
        ensures
            r == self.active,
    {
        self.active
    }

    /// What one who waits until at most `remaining` commands are under way does
    /// next. One who has to wait is put on the list.
    pub fn wait_for_drain(
        &mut self,
        remaining: usize,
        cancelled: bool,
        abort_message: &str,
        waiter: u64,
    ) -> (r: DrainStep)
        ensures
            final(self).active == old(self).active,
            if cancelled {
                &&& r matches DrainStep::Aborted(message) && message@ == abort_message@
                &&& final(self).waiters == old(self).waiters
            } else if old(self).active > remaining {
                &&& r == DrainStep::Wait
                &&& final(self).waiters@ == old(self).waiters@.push(waiter)
            } else {
                &&& r == DrainStep::Done
                &&& final(self).waiters == old(self).waiters
            },
    {
        if cancelled {
            return DrainStep::Aborted(abort_message.to_owned());
        }
        if self.active > remaining {
            self.waiters.push(waiter);
            return DrainStep::Wait;
        }
        DrainStep::Done
    }
}

} // verus!
