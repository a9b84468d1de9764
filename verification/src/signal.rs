//! The rendezvous flag behind the signal device.
//!
//! A write arms a boolean flag and wakes every waiter; a read blocks until
//! the flag is armed, consumes it, and returns no payload. The flag is only
//! ever touched under a mutex, and a blocked reader re-checks it on every
//! wakeup: the classic guarded wait, proof against spurious and lost
//! wakeups. This module holds the decisions of that protocol; the
//! surrounding process supplies the mutex, the condition variable, the
//! blocking and the waking.

use vstd::prelude::*;

verus! {

/// What the signal device's read does after one guarded check of the flag.
#[derive(Clone, Copy, Debug, PartialEq, Eq, Structural)]
pub enum ReadAction {
    /// The caller's buffer has zero capacity: return zero bytes at once,
    /// without touching the mutex.
    Finish,
    /// The flag was armed and is now consumed: wake every remaining waiter,
    /// drain the wait queue, then return zero bytes.
    ConsumeAndWake,
    /// The flag is not armed: block on the condition variable and check
    /// again after the next wakeup.
    Block,
}

/// The flag after a writer arms it: armed, whatever it held before.
pub open spec fn arm_transition(signaled: bool) -> bool {
    true
}

/// What one guarded check decides, given the flag and the caller's
/// requested length.
pub open spec fn read_poll_action(signaled: bool, requested: nat) -> ReadAction {
    if requested == 0 {
        ReadAction::Finish
    } else if signaled {
        ReadAction::ConsumeAndWake
    } else {
        ReadAction::Block
    }
}

/// The flag after one guarded check: consumed when it was armed and the
/// caller asked for bytes, untouched otherwise.
pub open spec fn read_poll_transition(signaled: bool, requested: nat) -> bool {
    if requested == 0 {
        signaled
    } else {
        false
    }
}

/// The single-slot rendezvous flag, a process-wide singleton. Exclusive
/// access is the caller's duty: the surrounding process guards the value
/// with a mutex, so `&mut self` here stands for holding that lock.
pub struct RendezvousFlag {
    signaled: bool,
}

impl RendezvousFlag {
    /// Whether the flag is armed.
    pub closed spec fn view(&self) -> bool {
        self.signaled
    }

    /// The flag at module load: not armed.
    pub fn new() -> (flag: RendezvousFlag)
        ensures
            !flag@,
    {
        RendezvousFlag { signaled: false }
    }

    /// The signal device's write: arm the flag. The caller then wakes every
    /// waiter and drains the wait queue before releasing the mutex. No byte
    /// payload is transmitted — the input's length is ignored — so zero
    /// bytes are reported written.
    pub fn write(&mut self, _input_len: usize) -> (written: usize)
        ensures
            final(self)@ == arm_transition(old(self)@),
            final(self)@,
            written == 0,
    {
        self.signaled = true;
        0
    }

    /// One guarded check of the signal device's read, made under the mutex
    /// on entry and again after every wakeup. At most one reader per write
    /// consumes the flag: the first to run its check after the write; every
    /// later one is told to block again.
    pub fn read_poll(&mut self, requested: usize) -> (action: ReadAction)
        ensures
            action == read_poll_action(old(self)@, requested as nat),
            final(self)@ == read_poll_transition(old(self)@, requested as nat),
    {
        if requested == 0 {
            ReadAction::Finish
        } else if self.signaled {
            self.signaled = false;
            ReadAction::ConsumeAndWake
        } else {
            ReadAction::Block
        }
    }
}

/// One write wakes exactly one reader through. A read that polls before any
/// write blocks; after a write arms the flag, the first reader to poll
/// consumes it and finishes, and a second reader — woken along with the
/// first, since the writer wakes all waiters — finds the flag consumed and
/// re-enters the wait.
pub proof fn lemma_one_write_wakes_one(requested: nat)
    requires
        requested > 0,
    ensures
        read_poll_action(false, requested) == ReadAction::Block,
        read_poll_action(arm_transition(false), requested) == ReadAction::ConsumeAndWake,
        read_poll_action(read_poll_transition(arm_transition(false), requested), requested)
            == ReadAction::Block,
{
}

/// Arming is idempotent: two writes with no read between leave the flag
/// armed just once. A following read consumes it without blocking, and the
/// read after that blocks — the two writes did not queue two signals.
pub proof fn lemma_arm_idempotent(initial: bool, requested: nat)
    requires
        requested > 0,
    ensures
        arm_transition(arm_transition(initial)),
        read_poll_action(arm_transition(arm_transition(initial)), requested)
            == ReadAction::ConsumeAndWake,
        !read_poll_transition(arm_transition(arm_transition(initial)), requested),
        read_poll_action(
            read_poll_transition(arm_transition(arm_transition(initial)), requested),
            requested,
        ) == ReadAction::Block,
{
}

/// A zero-capacity read decides nothing and changes nothing: it finishes at
/// once, leaves the flag as it was, and so never consumes a pending signal.
pub proof fn lemma_zero_read_leaves_flag(signaled: bool)
    ensures
        read_poll_action(signaled, 0) == ReadAction::Finish,
        read_poll_transition(signaled, 0) == signaled,
{
}

} // verus!
