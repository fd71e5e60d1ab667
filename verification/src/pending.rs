//! The single-slot buffer for a file awaiting a ready window.

use vstd::prelude::*;

verus! {

/// At most one `(path, content)` pair, buffered when a candidate file is
/// resolved while no window exists yet.  The slot follows a first-wins
/// policy: a later candidate never overwrites a buffered one, and only the
/// consumer (the window-ready handler) clears it.
pub struct PendingSlot {
    slot: Option<(String, String)>,
}

/// What `offer` guarantees: the slot is filled only when it was empty.
pub open spec fn offer_post(
    pre: PendingSlot,
    path: String,
    content: String,
    post: PendingSlot,
    accepted: bool,
) -> bool {
    match pre.buffered() {
        None => accepted && post.buffered() == Some((path, content)),
        Some(_) => !accepted && post.buffered() == pre.buffered(),
    }
}

/// What `take` guarantees: the buffered entry, if any, is handed out and the
/// slot is left empty.
pub open spec fn take_post(
    pre: PendingSlot,
    post: PendingSlot,
    taken: Option<(String, String)>,
) -> bool {
    taken == pre.buffered() && post.buffered() is None
}

impl PendingSlot {
    /// The buffered entry, if any.
    pub closed spec fn buffered(self) -> Option<(String, String)> {
        self.slot
    }

    /// An empty slot.
    pub fn new() -> (r: PendingSlot)
        ensures
            r.buffered() is None,
    {
        PendingSlot { slot: None }
    }

    /// Buffers `(path, content)` if the slot is empty; reports whether the
    /// entry was stored, so a dropped candidate can be acknowledged.
    pub fn offer(&mut self, path: String, content: String) -> (accepted: bool)
        ensures
            offer_post(*old(self), path, content, *final(self), accepted),
    {
        if self.slot.is_none() {
            self.slot = Some((path, content));
            true
        } else {
            false
        }
    }

    /// Hands out the buffered entry and clears the slot.
    pub fn take(&mut self) -> (taken: Option<(String, String)>)
        ensures
            take_post(*old(self), *final(self), taken),
    {
        let mut taken: Option<(String, String)> = None;
        core::mem::swap(&mut self.slot, &mut taken);
        taken
    }

    /// Whether the slot is empty.
    pub fn is_empty(&self) -> (r: bool)
        ensures
            r == (self.buffered() is None),
    {
        self.slot.is_none()
    }
}

/// A buffered entry is observed by exactly one reader: once a take has
/// emptied the slot, a second take in a row observes nothing.
pub proof fn lemma_pending_single_reader(
    p0: PendingSlot,
    p1: PendingSlot,
    p2: PendingSlot,
    r1: Option<(String, String)>,
    r2: Option<(String, String)>,
)
    requires
        take_post(p0, p1, r1),
        take_post(p1, p2, r2),
    ensures
        r2 is None,
        p2.buffered() is None,
{
}

/// First wins: offering a candidate while an entry is buffered neither
/// overwrites the buffer nor claims to have stored the candidate.
pub proof fn lemma_pending_first_wins(
    p0: PendingSlot,
    p1: PendingSlot,
    path: String,
    content: String,
    accepted: bool,
)
    requires
        p0.buffered() is Some,
        offer_post(p0, path, content, p1, accepted),
    ensures
        !accepted,
        p1.buffered() == p0.buffered(),
{
}

} // verus!
