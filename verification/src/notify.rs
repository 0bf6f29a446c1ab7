//! The interrupt bridge's rendezvous: a single-slot, coalescing
//! notification cell between the chip's interrupt line and a worker
//! thread.
//!
//! The producer runs in interrupt context and may only post — no
//! blocking, no allocation, no bus access. The slot has capacity one, so
//! any number of edges occurring before the consumer wakes coalesce into
//! a single wake; the count is deliberately not preserved. No data is
//! lost by that: the chip keeps its interrupt line asserted,
//! level-persistent, until the triggering status flags are cleared, and
//! backlog payloads stay readable regardless of the line. The host wraps
//! `wait` in its blocking-with-timeout receive; a timeout is a normal
//! result, not an error.

use vstd::prelude::*;

verus! {

/// The single-slot notification cell.
pub struct NotifySlot {
    /// Whether a notification is pending.
    pub pending: bool,
}

impl NotifySlot {
    /// An empty slot.
    pub fn new() -> (s: NotifySlot)
        ensures
            !s.pending,
    {
        NotifySlot { pending: false }
    }

    /// Post a notification. Posting into a full slot changes nothing:
    /// edges coalesce.
    pub fn notify(&mut self)
        ensures
            final(self).pending,
    {
        self.pending = true;
    }

    /// Consume the pending notification: report whether one was pending
    /// and leave the slot empty either way. The host's blocking receive
    /// returns this as `true` on a wake and `false` on a timeout.
    pub fn wait(&mut self) -> (woke: bool)
        ensures
            woke == old(self).pending,
            !final(self).pending,
    {
        let p = self.pending;
        self.pending = false;
        p
    }
}

/// The pending flag after `n` posts into a slot that held `pending`.
pub open spec fn after_posts(pending: bool, n: nat) -> bool
    decreases n,
{
    if n == 0 {
        pending
    } else {
        after_posts(true, (n - 1) as nat)
    }
}

/// Edges coalesce into a single wake: after any positive number of posts
/// before one `wait`, the slot is pending, so that `wait` returns true —
/// and by its contract it empties the slot, so a second `wait` with no
/// new post returns false.
pub proof fn lemma_wait_coalesces(pending: bool, n: nat)
    requires
        n >= 1,
    ensures
        after_posts(pending, n),
    decreases n,
{
    reveal_with_fuel(after_posts, 3);
    if n > 1 {
        lemma_wait_coalesces(true, (n - 1) as nat);
    }
}

} // verus!
