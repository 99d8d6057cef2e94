use vstd::prelude::*;

verus! {

/// The outcome of one poll, given the last generation counter seen (`None`
/// when none has been seen yet) and the counter read now: whether the cursor
/// may have changed, and the counter remembered afterwards.
pub open spec fn poll_step(last: Option<i32>, seed: i32) -> (bool, Option<i32>) {
    (last != Some(seed), Some(seed))
}

/// Change detector owned by one capture session. It remembers the last
/// cursor generation counter it was shown, so that each tick can tell
/// cheaply whether the cursor needs fingerprinting again.
#[derive(Debug)]
pub struct CursorTracker {
    last_seed: Option<i32>,
}

impl CursorTracker {
    /// The counter seen by the last poll, or `None` when nothing has been
    /// seen since creation or the last reset.
    pub closed spec fn last_seen(&self) -> Option<i32> {
        self.last_seed
    }

    /// A detector that has seen nothing yet.
    pub fn new() -> (r: CursorTracker)
        ensures
            r.last_seen() is None,
    {
        CursorTracker { last_seed: None }
    }

    /// Compares the counter `seed` read now with the one remembered.
    /// Returns `false`, changing nothing, when they are equal; otherwise
    /// remembers `seed` and returns `true`.
    pub fn poll_changed(&mut self, seed: i32) -> (r: bool)
        ensures
            (r, final(self).last_seen()) == poll_step(old(self).last_seen(), seed),
            !r ==> *final(self) == *old(self),
    {
        if self.last_seed == Some(seed) {
            return false;
        }
        self.last_seed = Some(seed);
        true
    }

    /// Forgets the remembered counter, so that the next poll reports a change.
    pub fn reset(&mut self)
        ensures
            final(self).last_seen() is None,
    {
        self.last_seed = None;
    }
}

} // verus!
