//! Change detection on a watched status line.
use vstd::prelude::*;

verus! {

/// The last level read from a status line, if any was read yet.
pub struct ChangeDetector {
    prev: Option<u8>,
}

impl ChangeDetector {
    pub fn new() -> (r: ChangeDetector)
        ensures
            r.last() is None,
    {
        ChangeDetector { prev: None }
    }

    pub closed spec fn last(&self) -> Option<u8> {
        self.prev
    }

    /// Takes the level just read. A level that differs from the last one (or
    /// the first level read) is reported as the line's new state: active at
    /// level 1.
    pub fn observe(&mut self, level: u8) -> (r: Option<bool>)
        ensures
            final(self).last() == Some(level),
            r == (if old(self).last() == Some(level) {
                None::<bool>
            } else {
                Some(level == 1)
            }),
    {
        let changed = match self.prev {
            Some(p) => p != level,
            None => true,
        };
        self.prev = Some(level);
        if changed {
            Some(level == 1)
        } else {
            None
        }
    }
}

} // verus!
