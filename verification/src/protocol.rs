//! The decisions that handle operations take on the counter word.
//!
//! Every operation on a shared control block loads the counter, decides from
//! the value it saw, and then attempts a compare-and-exchange; when the
//! exchange fails it loads again. The functions here are those decisions:
//! they map the observed value to what the operation attempts next.

use vstd::prelude::*;

verus! {

/// The counter value of a block that a handle has locked.
pub const LOCKED: usize = 0;

/// The counter value of a block that has exactly one handle left.
pub const ALONE: usize = 1;

/// The counter value of a block that has exactly two handles.
pub const PAIR: usize = 2;

/// What an operation that adds one share does next.
#[derive(Clone, Copy, Debug, PartialEq, Eq, Structural)]
pub enum Acquire {
    /// The block is locked: load the counter again.
    Retry,
    /// Replace `current` by `new`; when the counter no longer holds
    /// `current`, load it again.
    Exchange { current: usize, new: usize },
}

/// What an operation that gives up one handle does next.
#[derive(Clone, Copy, Debug, PartialEq, Eq, Structural)]
pub enum Release {
    /// The block is locked: load the counter again.
    Retry,
    /// This is the last handle: free the block.
    Free,
    /// Exactly two handles are left: replace `PAIR` by `LOCKED`, wake the
    /// stored waker, then store `ALONE`.
    Handoff,
    /// Replace `current` by `new`; when the counter no longer holds
    /// `current`, load it again.
    Exchange { current: usize, new: usize },
}

/// What the host does when it is polled.
#[derive(Clone, Copy, Debug, PartialEq, Eq, Structural)]
pub enum PollStep {
    /// The block is locked by a handoff: wait until the counter reads
    /// `ALONE`, then take the block back.
    AwaitUnlock,
    /// The host is the only handle left: take the block back.
    Ready,
    /// Replace `current` by `LOCKED`, refresh the stored waker, store
    /// `current` again and report that the value is not ready yet.
    Lock { current: usize },
}

/// The decision of an operation that adds one share (cloning a share, or
/// sharing from the host) on the counter value `observed`.
pub fn acquire_step(observed: usize) -> (step: Acquire)
    requires
        observed < usize::MAX,
    ensures
        observed == LOCKED ==> step is Retry,
        observed != LOCKED ==> step == (Acquire::Exchange { current: observed, new: (observed + 1) as usize }),
{
    if observed == LOCKED {
        Acquire::Retry
    } else {
        Acquire::Exchange { current: observed, new: observed + 1 }
    }
}

/// The decision of an operation that gives up a share or the host on the
/// counter value `observed`.
pub fn release_step(observed: usize) -> (step: Release)
    ensures
        observed == LOCKED ==> step is Retry,
        observed == ALONE ==> step is Free,
        observed == PAIR ==> step is Handoff,
        observed > PAIR ==> step == (Release::Exchange { current: observed, new: (observed - 1) as usize }),
{
    if observed == LOCKED {
        Release::Retry
    } else if observed == ALONE {
        Release::Free
    } else if observed == PAIR {
        Release::Handoff
    } else {
        Release::Exchange { current: observed, new: observed - 1 }
    }
}

/// The decision of a mutable share that is given up, on the counter value
/// `observed`. A mutable share never lives beside more than one other
/// handle, so the counter it observes is at most `PAIR`.
pub fn release_mut_step(observed: usize) -> (step: Release)
    requires
        observed <= PAIR,
    ensures
        observed == LOCKED ==> step is Retry,
        observed == ALONE ==> step is Free,
        observed == PAIR ==> step is Handoff,
{
    if observed == LOCKED {
        Release::Retry
    } else if observed == ALONE {
        Release::Free
    } else {
        Release::Handoff
    }
}

/// The decision of a host that is polled, on the counter value `observed`.
pub fn poll_step(observed: usize) -> (step: PollStep)
    ensures
        observed == LOCKED ==> step is AwaitUnlock,
        observed == ALONE ==> step is Ready,
        observed >= PAIR ==> step == (PollStep::Lock { current: observed }),
{
    if observed == LOCKED {
        PollStep::AwaitUnlock
    } else if observed == ALONE {
        PollStep::Ready
    } else {
        PollStep::Lock { current: observed }
    }
}

} // verus!
