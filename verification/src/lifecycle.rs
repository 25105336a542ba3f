//! Shutdown decisions shared by the hub and the peer: what an interrupt
//! means, and how long to wait for a helper thread to end.

use vstd::prelude::*;

verus! {

/// What an interrupt from the operator calls for.
#[derive(Clone, Copy, Debug, PartialEq, Eq)]
pub enum InterruptAction {
    /// Start the graceful shutdown.
    BeginShutdown,
    /// Leave at once.
    ForceExit,
}

/// Tells the first interrupt from those after it.
#[derive(Clone, Copy, Debug, PartialEq, Eq)]
pub struct Interrupts {
    seen: bool,
}

impl Interrupts {
    /// No interrupt yet.
    pub fn new() -> (interrupts: Interrupts)
        ensures
            !interrupts.shutting_down(),
    {
        Interrupts { seen: false }
    }

    /// Whether an interrupt has started the shutdown.
    pub closed spec fn shutting_down(&self) -> bool {
        self.seen
    }

    /// Whether an interrupt has started the shutdown.
    pub fn is_shutting_down(&self) -> (r: bool)
        ensures
            r == self.shutting_down(),
    {
        self.seen
    }

    /// Takes note of an interrupt: the first starts the graceful shutdown,
    /// any later one forces the exit.
    pub fn on_interrupt(&mut self) -> (action: InterruptAction)
        ensures
            final(self).shutting_down(),
            action == (if old(self).shutting_down() {
                InterruptAction::ForceExit
            } else {
                InterruptAction::BeginShutdown
            }),
    {
        if self.seen {
            InterruptAction::ForceExit
        } else {
            self.seen = true;
            InterruptAction::BeginShutdown
        }
    }
}

/// What to do while waiting for a helper thread to end.
#[derive(Clone, Copy, Debug, PartialEq, Eq)]
pub enum WaitStep {
    /// The thread has not ended: sleep one pause and look again.
    Sleep,
    /// The thread has ended.
    Finished,
    /// The thread has not ended and the grace period is over: go on without
    /// it, with a warning.
    TimedOut,
}

/// A bounded wait for a helper thread: so many pauses and no more.
#[derive(Clone, Copy, Debug, PartialEq, Eq)]
pub struct GraceWait {
    pauses_left: u32,
}

impl GraceWait {
    /// A wait of at most `pauses` pauses.
    pub fn new(pauses: u32) -> (wait: GraceWait)
        ensures
            wait.pauses_left() == pauses,
    {
        GraceWait { pauses_left: pauses }
    }

    /// The pauses that the wait may still take.
    pub closed spec fn pauses_left(&self) -> u32 {
        self.pauses_left
    }

    /// The pauses that the wait may still take.
    pub fn remaining(&self) -> (r: u32)
        ensures
            r == self.pauses_left(),
    {
        self.pauses_left
    }

    /// Decides the next step of the wait, given whether the thread has ended.
    /// Each pause granted is one fewer left, so a wait of `n` pauses sleeps at
    /// most `n` times.
    pub fn poll(&mut self, finished: bool) -> (step: WaitStep)
        ensures
            step == next_wait_step(old(self).pauses_left(), finished),
            final(self).pauses_left() == (if step == WaitStep::Sleep {
                (old(self).pauses_left() - 1) as u32
            } else {
                old(self).pauses_left()
            }),
    {
        if finished {
            WaitStep::Finished
        } else if self.pauses_left > 0 {
            self.pauses_left = self.pauses_left - 1;
            WaitStep::Sleep
        } else {
            WaitStep::TimedOut
        }
    }
}

/// The step of a wait with `pauses_left` pauses to go.
pub open spec fn next_wait_step(pauses_left: u32, finished: bool) -> WaitStep {
    if finished {
        WaitStep::Finished
    } else if pauses_left > 0 {
        WaitStep::Sleep
    } else {
        WaitStep::TimedOut
    }
}

/// The pauses left after a run of polls, each of which found the thread
/// ended or not as `finished` tells in turn.
pub open spec fn pauses_after(pauses_left: u32, finished: Seq<bool>) -> u32
    decreases finished.len(),
{
    if finished.len() == 0 {
        pauses_left
    } else {
        let before = pauses_after(pauses_left, finished.drop_last());
        if next_wait_step(before, finished.last()) == WaitStep::Sleep {
            (before - 1) as u32
        } else {
            before
        }
    }
}

/// The pauses that a wait has taken in the course of such a run.
pub open spec fn pauses_taken(pauses_left: u32, finished: Seq<bool>) -> nat
    decreases finished.len(),
{
    if finished.len() == 0 {
        0
    } else {
        let earlier = pauses_taken(pauses_left, finished.drop_last());
        let before = pauses_after(pauses_left, finished.drop_last());
        if next_wait_step(before, finished.last()) == WaitStep::Sleep {
            earlier + 1
        } else {
            earlier
        }
    }
}

/// A wait is bounded: however often it is polled, it takes no more pauses
/// than it was given, and what it has taken and what it has left add up to
/// that.
pub proof fn law_wait_is_bounded(pauses: u32, finished: Seq<bool>)
    ensures
        pauses_taken(pauses, finished) + pauses_after(pauses, finished) == pauses,
        pauses_taken(pauses, finished) <= pauses,
    decreases finished.len(),
{
    if finished.len() > 0 {
        law_wait_is_bounded(pauses, finished.drop_last());
    }
}

} // verus!
